use rwm::client::Client;
use rwm::event::Event;
use rwm::geometry::{FontMetrics, Geometry, Pointer};
use rwm::mode::Mode;
use rwm::protocol::{Reply, Request};
use rwm::run;

#[test]
fn run_without_replies_asks_for_the_tree() {
    let (env, requests) = run(None, Vec::new());
    assert_eq!(requests, vec![Request::QueryTree]);
    assert_eq!(env.mode(), Mode::AwaitTree);
    assert_eq!(env.pending(), Request::QueryTree);
}

#[test]
fn run_through_scan_and_events() {
    let (env, requests) = run(
        Some(FontMetrics { ascent: 12, descent: 4 }),
        vec![
            Reply::Tree(vec![1, 2]),
            Reply::Attributes { override_redirect: false },
            Reply::Geometry(Geometry { x: 10, y: 20, width: 640, height: 480 }),
            Reply::Window(100),
            Reply::Attributes { override_redirect: true },
            Reply::Event(Event::Unmap { window: 1 }),
            Reply::Event(Event::MapRequest { window: 3 }),
            Reply::Geometry(Geometry { x: 0, y: 0, width: 1, height: 1 }),
            Reply::Window(300),
            Reply::Event(Event::Unmap { window: 1 }),
        ],
    );
    assert_eq!(
        requests,
        vec![
            Request::QueryTree,
            Request::GetAttributes { window: 1 },
            Request::GetGeometry { window: 1 },
            Request::CreateWindow { x: 10, y: 20, width: 640, height: 496 },
            Request::ReparentWindow { window: 1, parent: 100, x: 5, y: 21 },
            Request::ResizeWindow { window: 1, width: 630, height: 470 },
            Request::MapWindow { window: 1 },
            Request::MapWindow { window: 100 },
            Request::AddToSaveset { window: 1 },
            Request::GetAttributes { window: 2 },
            Request::NextEvent,
            Request::NextEvent,
            Request::GetGeometry { window: 3 },
            Request::CreateWindow { x: 0, y: 0, width: 600, height: 416 },
            Request::ReparentWindow { window: 3, parent: 300, x: 5, y: 21 },
            Request::ResizeWindow { window: 3, width: 590, height: 390 },
            Request::MapWindow { window: 3 },
            Request::MapWindow { window: 300 },
            Request::AddToSaveset { window: 3 },
            Request::NextEvent,
            Request::DestroyWindow { window: 100 },
            Request::NextEvent,
        ]
    );
    assert_eq!(env.mode(), Mode::Running);
    assert_eq!(env.clients().len(), 1);
    assert_eq!(
        env.clients().get(0),
        Some(Client { window: 3, frame: 300, ignore_unmap: false, title_height: 16 })
    );
}

#[test]
fn run_skips_replies_that_do_not_answer() {
    let (env, requests) = run(
        None,
        vec![
            Reply::Event(Event::MapRequest { window: 9 }),
            Reply::Window(4),
            Reply::Tree(Vec::new()),
            Reply::Tree(vec![5]),
        ],
    );
    assert_eq!(requests, vec![Request::QueryTree, Request::NextEvent]);
    assert_eq!(env.mode(), Mode::Running);
    assert_eq!(env.clients().len(), 0);
}

#[test]
fn run_can_end_in_the_middle_of_a_drag() {
    let (env, requests) = run(
        None,
        vec![
            Reply::Tree(Vec::new()),
            Reply::Event(Event::MapRequest { window: 3 }),
            Reply::Geometry(Geometry { x: 0, y: 0, width: 1, height: 1 }),
            Reply::Window(300),
            Reply::Event(Event::ButtonPress { window: 300, button: 1 }),
            Reply::Pointer(Pointer { root_x: 50, root_y: 60, win_x: 50, win_y: 60 }),
            Reply::Event(Event::MotionNotify { x_root: 55, y_root: 58 }),
        ],
    );
    let client = Client { window: 3, frame: 300, ignore_unmap: false, title_height: 18 };
    assert_eq!(env.mode(), Mode::Moving { client, off_x: 50, off_y: 60 });
    assert_eq!(
        requests[requests.len() - 2..],
        [Request::MoveWindow { window: 300, x: 5, y: -2 }, Request::NextEvent]
    );
}
