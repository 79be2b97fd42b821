use rwm::event::{Button, Event, EventKind};

#[test]
fn button_press_code_is_known() {
    assert_eq!(EventKind::from_code(4), EventKind::ButtonPress);
}

#[test]
fn button_release_code_is_known() {
    assert_eq!(EventKind::from_code(5), EventKind::ButtonRelease);
}

#[test]
fn motion_notify_code_is_known() {
    assert_eq!(EventKind::from_code(6), EventKind::MotionNotify);
}

#[test]
fn expose_code_is_known() {
    assert_eq!(EventKind::from_code(12), EventKind::Expose);
}

#[test]
fn destroy_notify_code_is_known() {
    assert_eq!(EventKind::from_code(17), EventKind::Destroy);
}

#[test]
fn unmap_notify_code_is_known() {
    assert_eq!(EventKind::from_code(18), EventKind::Unmap);
}

#[test]
fn map_request_code_is_known() {
    assert_eq!(EventKind::from_code(20), EventKind::MapRequest);
}

#[test]
fn configure_request_code_is_known() {
    assert_eq!(EventKind::from_code(23), EventKind::ConfigureRequest);
}

#[test]
fn property_notify_code_is_known() {
    assert_eq!(EventKind::from_code(28), EventKind::PropertyNotify);
}

#[test]
fn other_codes_are_unknown() {
    for code in [0, 1, 2, 3, 7, 11, 13, 16, 19, 21, 22, 24, 27, 29, 36, -1, i32::MAX, i32::MIN] {
        assert_eq!(EventKind::from_code(code), EventKind::Unknown, "code {}", code);
    }
}

#[test]
fn codes_agree_with_the_bindings() {
    assert_eq!(EventKind::from_code(x11::xlib::ButtonPress), EventKind::ButtonPress);
    assert_eq!(EventKind::from_code(x11::xlib::ButtonRelease), EventKind::ButtonRelease);
    assert_eq!(EventKind::from_code(x11::xlib::MotionNotify), EventKind::MotionNotify);
    assert_eq!(EventKind::from_code(x11::xlib::Expose), EventKind::Expose);
    assert_eq!(EventKind::from_code(x11::xlib::MapRequest), EventKind::MapRequest);
    assert_eq!(EventKind::from_code(x11::xlib::UnmapNotify), EventKind::Unmap);
    assert_eq!(EventKind::from_code(x11::xlib::DestroyNotify), EventKind::Destroy);
    assert_eq!(EventKind::from_code(x11::xlib::ConfigureRequest), EventKind::ConfigureRequest);
    assert_eq!(EventKind::from_code(x11::xlib::PropertyNotify), EventKind::PropertyNotify);
    assert_eq!(EventKind::from_code(x11::xlib::KeyPress), EventKind::Unknown);
    assert_eq!(EventKind::from_code(x11::xlib::MapNotify), EventKind::Unknown);
}

#[test]
fn buttons_are_told_apart() {
    assert_eq!(Button::from_code(1), Button::Button1);
    assert_eq!(Button::from_code(2), Button::Button2);
    assert_eq!(Button::from_code(3), Button::Button3);
    assert_eq!(Button::from_code(0), Button::Other);
    assert_eq!(Button::from_code(4), Button::Other);
    assert_eq!(Button::from_code(5), Button::Other);
    assert_eq!(Button::from_code(u32::MAX), Button::Other);
}

#[test]
fn buttons_agree_with_the_bindings() {
    assert_eq!(Button::from_code(x11::xlib::Button1), Button::Button1);
    assert_eq!(Button::from_code(x11::xlib::Button2), Button::Button2);
    assert_eq!(Button::from_code(x11::xlib::Button3), Button::Button3);
    assert_eq!(Button::from_code(x11::xlib::Button4), Button::Other);
}

#[test]
fn event_kinds() {
    assert_eq!(Event::ButtonPress { window: 1, button: 1 }.kind(), EventKind::ButtonPress);
    assert_eq!(Event::ButtonRelease { x_root: 1, y_root: 2 }.kind(), EventKind::ButtonRelease);
    assert_eq!(Event::MotionNotify { x_root: 1, y_root: 2 }.kind(), EventKind::MotionNotify);
    assert_eq!(Event::Expose { window: 1, count: 0 }.kind(), EventKind::Expose);
    assert_eq!(Event::MapRequest { window: 1 }.kind(), EventKind::MapRequest);
    assert_eq!(Event::Unmap { window: 1 }.kind(), EventKind::Unmap);
    assert_eq!(Event::Destroy { window: 1 }.kind(), EventKind::Destroy);
    assert_eq!(Event::ConfigureRequest { window: 1 }.kind(), EventKind::ConfigureRequest);
    assert_eq!(Event::PropertyNotify { window: 1 }.kind(), EventKind::PropertyNotify);
    assert_eq!(Event::Unknown.kind(), EventKind::Unknown);
}

#[test]
fn event_windows() {
    assert_eq!(Event::ButtonPress { window: 11, button: 1 }.window(), Some(11));
    assert_eq!(Event::Expose { window: 12, count: 3 }.window(), Some(12));
    assert_eq!(Event::MapRequest { window: 13 }.window(), Some(13));
    assert_eq!(Event::Unmap { window: 14 }.window(), Some(14));
    assert_eq!(Event::Destroy { window: 15 }.window(), Some(15));
    assert_eq!(Event::ConfigureRequest { window: 16 }.window(), Some(16));
    assert_eq!(Event::PropertyNotify { window: 17 }.window(), Some(17));
    assert_eq!(Event::ButtonRelease { x_root: 1, y_root: 2 }.window(), None);
    assert_eq!(Event::MotionNotify { x_root: 1, y_root: 2 }.window(), None);
    assert_eq!(Event::Unknown.window(), None);
}
