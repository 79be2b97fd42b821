use rwm::client::Client;
use rwm::geometry::{FontMetrics, Geometry};
use rwm::mode::Mode;
use rwm::protocol::Request;

fn client() -> Client {
    Client { window: 7, frame: 70, ignore_unmap: false, title_height: 18 }
}

#[test]
fn frame_is_asked_for_at_the_clients_position() {
    let g = Geometry { x: 30, y: 40, width: 800, height: 700 };
    assert_eq!(
        Client::frame_for(g, 18),
        Request::CreateWindow { x: 30, y: 40, width: 800, height: 718 }
    );
}

#[test]
fn frame_of_a_small_window_has_the_floor_size() {
    let g = Geometry { x: -5, y: -6, width: 10, height: 20 };
    assert_eq!(
        Client::frame_for(g, 14),
        Request::CreateWindow { x: -5, y: -6, width: 600, height: 414 }
    );
}

#[test]
fn frame_for_the_largest_window_and_title() {
    let g = Geometry { x: i16::MAX, y: i16::MIN, width: u16::MAX, height: u16::MAX };
    assert_eq!(
        Client::frame_for(g, 131070),
        Request::CreateWindow { x: 32767, y: -32768, width: 65535, height: 196605 }
    );
}

#[test]
fn adoption_reparents_resizes_maps_and_saves() {
    let g = Geometry { x: 30, y: 40, width: 800, height: 700 };
    let (c, requests) = Client::new(7, 70, 18, true, g);
    assert_eq!(c, Client { window: 7, frame: 70, ignore_unmap: true, title_height: 18 });
    assert_eq!(
        requests,
        vec![
            Request::ReparentWindow { window: 7, parent: 70, x: 5, y: 23 },
            Request::ResizeWindow { window: 7, width: 790, height: 690 },
            Request::MapWindow { window: 7 },
            Request::MapWindow { window: 70 },
            Request::AddToSaveset { window: 7 },
        ]
    );
}

#[test]
fn adoption_of_a_small_window_uses_the_floor() {
    let g = Geometry { x: 0, y: 0, width: 1, height: 1 };
    let (_, requests) = Client::new(7, 70, 0, false, g);
    assert_eq!(requests[0], Request::ReparentWindow { window: 7, parent: 70, x: 5, y: 5 });
    assert_eq!(requests[1], Request::ResizeWindow { window: 7, width: 590, height: 390 });
}

#[test]
fn place_inside_the_frame_does_not_depend_on_the_windows_position() {
    let here = Geometry { x: 300, y: -200, width: 700, height: 500 };
    let there = Geometry { x: -7, y: 9000, width: 700, height: 500 };
    let (_, a) = Client::new(7, 70, 18, false, here);
    let (_, b) = Client::new(7, 70, 18, false, there);
    assert_eq!(a, b);
    assert_eq!(a[0], Request::ReparentWindow { window: 7, parent: 70, x: 5, y: 23 });
}

#[test]
fn client_is_mapped_before_its_frame() {
    let g = Geometry { x: 0, y: 0, width: 1, height: 1 };
    let (_, requests) = Client::new(7, 70, 18, false, g);
    let client_at = requests.iter().position(|r| *r == Request::MapWindow { window: 7 });
    let frame_at = requests.iter().position(|r| *r == Request::MapWindow { window: 70 });
    assert!(client_at.unwrap() < frame_at.unwrap());
}

#[test]
fn resize_gives_the_client_the_room_below_the_title() {
    assert_eq!(
        client().resize(300, 200),
        vec![
            Request::ResizeWindow { window: 70, width: 300, height: 200 },
            Request::ResizeWindow { window: 7, width: 300, height: 182 },
        ]
    );
}

#[test]
fn resize_never_gives_a_negative_height() {
    assert_eq!(
        client().resize(3, 17),
        vec![
            Request::ResizeWindow { window: 70, width: 3, height: 17 },
            Request::ResizeWindow { window: 7, width: 3, height: 0 },
        ]
    );
    assert_eq!(
        client().resize(0, 18),
        vec![
            Request::ResizeWindow { window: 70, width: 0, height: 18 },
            Request::ResizeWindow { window: 7, width: 0, height: 0 },
        ]
    );
}

#[test]
fn configure_follows_the_client() {
    let g = Geometry { x: 100, y: 50, width: 800, height: 600 };
    assert_eq!(
        client().configure(g),
        vec![
            Request::MoveWindow { window: 70, x: 100, y: 32 },
            Request::ResizeWindow { window: 70, width: 800, height: 618 },
            Request::ResizeWindow { window: 7, width: 800, height: 600 },
        ]
    );
}

#[test]
fn configure_at_the_limits() {
    let c = Client { window: 7, frame: 70, ignore_unmap: false, title_height: 131070 };
    let g = Geometry { x: i16::MIN, y: i16::MIN, width: u16::MAX, height: u16::MAX };
    assert_eq!(
        c.configure(g),
        vec![
            Request::MoveWindow { window: 70, x: -32768, y: -163838 },
            Request::ResizeWindow { window: 70, width: 65535, height: 196605 },
            Request::ResizeWindow { window: 7, width: 65535, height: 65535 },
        ]
    );
}

#[test]
fn redraw_clears_then_draws_the_name() {
    assert_eq!(
        client().redraw_frame(String::from("xterm"), None),
        vec![
            Request::ClearWindow { window: 70 },
            Request::DrawString { window: 70, text: String::from("xterm"), x: 5, y: 14 },
        ]
    );
    assert_eq!(
        client().redraw_frame(String::new(), Some(FontMetrics { ascent: 9, descent: 2 })),
        vec![
            Request::ClearWindow { window: 70 },
            Request::DrawString { window: 70, text: String::new(), x: 5, y: 9 },
        ]
    );
}

#[test]
fn kill_names_the_client_window() {
    assert_eq!(client().kill(), Request::KillClient { window: 7 });
}

#[test]
fn move_in_drag_moves_the_frame() {
    assert_eq!(
        client().move_in_drag(80, 90, 140, 130),
        Request::MoveWindow { window: 70, x: 60, y: 40 }
    );
    assert_eq!(
        client().move_in_drag(80, 90, 0, 0),
        Request::MoveWindow { window: 70, x: -80, y: -90 }
    );
}

#[test]
fn resize_in_drag_uses_the_distance_from_the_origin() {
    assert_eq!(
        client().resize_in_drag(100, 100, 400, 350),
        vec![
            Request::ResizeWindow { window: 70, width: 300, height: 250 },
            Request::ResizeWindow { window: 7, width: 300, height: 232 },
        ]
    );
    assert_eq!(
        client().resize_in_drag(100, 100, 40, 60),
        vec![
            Request::ResizeWindow { window: 70, width: 60, height: 40 },
            Request::ResizeWindow { window: 7, width: 60, height: 22 },
        ]
    );
}

#[test]
fn warp_goes_to_the_frames_far_corner() {
    let g = Geometry { x: 10, y: 20, width: 600, height: 418 };
    assert_eq!(
        client().warp_pointer(g),
        Request::WarpPointer { window: 70, x: 10, y: 20, width: 600, height: 418 }
    );
}

#[test]
fn first_button_starts_a_move() {
    let (mode, requests) = client().handle_button_press(1);
    assert_eq!(mode, Some(Mode::MoveGrab { client: client() }));
    assert_eq!(
        requests,
        vec![Request::RaiseWindow { window: 70 }, Request::QueryPointer { window: 70 }]
    );
}

#[test]
fn second_button_kills_the_client() {
    let (mode, requests) = client().handle_button_press(2);
    assert_eq!(mode, None);
    assert_eq!(requests, vec![Request::KillClient { window: 7 }]);
}

#[test]
fn third_button_starts_a_resize() {
    let (mode, requests) = client().handle_button_press(3);
    assert_eq!(mode, Some(Mode::ResizeGrab { client: client() }));
    assert_eq!(
        requests,
        vec![Request::RaiseWindow { window: 70 }, Request::GetGeometry { window: 70 }]
    );
}

#[test]
fn other_buttons_do_nothing() {
    for button in [0u32, 4, 5, 6, 100, u32::MAX] {
        let (mode, requests) = client().handle_button_press(button);
        assert_eq!(mode, None);
        assert!(requests.is_empty());
    }
}
