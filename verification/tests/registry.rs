use rwm::client::Client;
use rwm::registry::Registry;

fn c(window: u64, frame: u64, ignore_unmap: bool) -> Client {
    Client { window, frame, ignore_unmap, title_height: 18 }
}

#[test]
fn new_registry_is_empty() {
    let r = Registry::new();
    assert_eq!(r.len(), 0);
    assert_eq!(r.get(0), None);
    assert_eq!(r.find_by_window(1), None);
    assert_eq!(r.find_by_frame(1), None);
    assert_eq!(r.find_client(1), None);
    assert_eq!(r.frame_of(1), None);
    assert_eq!(r.client_of(1), None);
}

#[test]
fn adopt_records_in_order() {
    let mut r = Registry::new();
    assert!(r.adopt(c(1, 10, false)));
    assert!(r.adopt(c(2, 20, true)));
    assert_eq!(r.len(), 2);
    assert_eq!(r.get(0), Some(c(1, 10, false)));
    assert_eq!(r.get(1), Some(c(2, 20, true)));
    assert_eq!(r.get(2), None);
}

#[test]
fn adopt_of_a_managed_window_changes_nothing() {
    let mut r = Registry::new();
    assert!(r.adopt(c(1, 10, false)));
    assert!(!r.adopt(c(1, 11, true)));
    assert_eq!(r.len(), 1);
    assert_eq!(r.get(0), Some(c(1, 10, false)));
    assert_eq!(r.frame_of(1), Some(10));
    assert_eq!(r.client_of(11), None);
}

#[test]
fn frame_is_defined_exactly_for_managed_windows() {
    let mut r = Registry::new();
    r.adopt(c(1, 10, false));
    r.adopt(c(2, 20, false));
    for w in 0u64..30 {
        let managed = w == 1 || w == 2;
        assert_eq!(r.frame_of(w).is_some(), managed);
        assert_eq!(r.find_by_window(w).is_some(), managed);
    }
    assert_eq!(r.frame_of(1), Some(10));
    assert_eq!(r.frame_of(2), Some(20));
    r.unmanage(1);
    assert_eq!(r.frame_of(1), None);
    assert_eq!(r.frame_of(2), Some(20));
}

#[test]
fn lookups_by_frame() {
    let mut r = Registry::new();
    r.adopt(c(1, 10, false));
    r.adopt(c(2, 20, false));
    assert_eq!(r.find_by_frame(10), Some(c(1, 10, false)));
    assert_eq!(r.find_by_frame(20), Some(c(2, 20, false)));
    assert_eq!(r.find_by_frame(1), None);
    assert_eq!(r.client_of(20), Some(2));
    assert_eq!(r.client_of(2), None);
}

#[test]
fn find_client_prefers_the_frame() {
    let mut r = Registry::new();
    r.adopt(c(1, 10, false));
    r.adopt(c(10, 30, false));
    assert_eq!(r.find_client(10), Some(c(1, 10, false)));
    assert_eq!(r.find_client(1), Some(c(1, 10, false)));
    assert_eq!(r.find_client(30), Some(c(10, 30, false)));
    assert_eq!(r.find_client(99), None);
}

#[test]
fn lookup_by_frame_takes_the_first_of_equal_frames() {
    let mut r = Registry::new();
    r.adopt(c(1, 10, false));
    r.adopt(c(2, 10, true));
    assert_eq!(r.find_by_frame(10), Some(c(1, 10, false)));
    assert_eq!(r.client_of(10), Some(1));
}

#[test]
fn unmanage_of_an_unknown_window_changes_nothing() {
    let mut r = Registry::new();
    r.adopt(c(1, 10, false));
    r.adopt(c(2, 20, true));
    assert_eq!(r.unmanage(3), None);
    assert_eq!(r.unmanage(10), None);
    assert_eq!(r.len(), 2);
    assert_eq!(r.get(0), Some(c(1, 10, false)));
    assert_eq!(r.get(1), Some(c(2, 20, true)));
    assert_eq!(r.unmanage(3), None);
    assert_eq!(r.len(), 2);
}

#[test]
fn unmanage_removes_and_returns_the_frame() {
    let mut r = Registry::new();
    r.adopt(c(1, 10, false));
    r.adopt(c(2, 20, false));
    r.adopt(c(3, 30, false));
    assert_eq!(r.unmanage(2), Some(20));
    assert_eq!(r.len(), 2);
    assert_eq!(r.get(0), Some(c(1, 10, false)));
    assert_eq!(r.get(1), Some(c(3, 30, false)));
    assert_eq!(r.find_by_window(2), None);
    assert_eq!(r.find_by_frame(20), None);
}

#[test]
fn first_unmap_clears_the_mark_and_the_second_removes() {
    let mut r = Registry::new();
    r.adopt(c(1, 10, true));
    r.adopt(c(2, 20, false));
    assert_eq!(r.unmanage(1), None);
    assert_eq!(r.len(), 2);
    assert_eq!(r.get(0), Some(c(1, 10, false)));
    assert_eq!(r.get(1), Some(c(2, 20, false)));
    assert_eq!(r.unmanage(1), Some(10));
    assert_eq!(r.len(), 1);
    assert_eq!(r.get(0), Some(c(2, 20, false)));
    assert_eq!(r.find_by_window(1), None);
    assert_eq!(r.unmanage(1), None);
    assert_eq!(r.len(), 1);
}

#[test]
fn a_window_can_be_adopted_again_after_it_left() {
    let mut r = Registry::new();
    r.adopt(c(1, 10, false));
    assert_eq!(r.unmanage(1), Some(10));
    assert!(r.adopt(c(1, 11, false)));
    assert_eq!(r.frame_of(1), Some(11));
}
