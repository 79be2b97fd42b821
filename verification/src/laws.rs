//! What holds of the manager in every state and over whole conversations.

use vstd::prelude::*;
use crate::client::Client;
use crate::env::EnvState;
use crate::event::Event;
use crate::geometry::{abs_int, max_int, Geometry, Window, FLOOR_HEIGHT, FLOOR_WIDTH};
use crate::mode::Mode;
use crate::protocol::{ends_in_query, Reply, Request};
use crate::registry::{
    distinct_frames, find, frame_of, frames, lemma_adopt_keeps_frames_distinct, lemma_adopt_wf,
    lemma_client_of_iff_frames, lemma_frame_of_iff_managed, lemma_position,
    lemma_unmanage_keeps_frames_distinct, lemma_unmanage_untracked, lemma_unmanage_wf,
    lemma_unmap_twice, manages, Role,
};

verus! {

/// A client found in a well-formed table is well formed.
proof fn lemma_found_wf(state: EnvState, role: Role, id: Window)
    requires
        state.wf(),
    ensures
        find(state.clients, role, id) matches Some(client) ==> client.wf(),
{
    lemma_position(state.clients, role, id);
}

/// Every step of the manager leaves its state well formed.
pub proof fn lemma_step_wf(state: EnvState, reply: Reply)
    requires
        state.wf(),
    ensures
        state.step(reply).0.wf(),
{
    match (state.mode, reply) {
        (Mode::Running, Reply::Event(event)) => {
            match event {
                Event::ButtonPress { window, button } => {
                    lemma_found_wf(state, Role::Frame, window);
                    lemma_found_wf(state, Role::Window, window);
                },
                Event::Expose { window, count } => {
                    lemma_found_wf(state, Role::Frame, window);
                },
                Event::Unmap { window } => {
                    lemma_unmanage_wf(state.clients, window);
                },
                Event::Destroy { window } => {
                    lemma_unmanage_wf(state.clients, window);
                },
                Event::ConfigureRequest { window } => {
                    lemma_found_wf(state, Role::Window, window);
                },
                Event::PropertyNotify { window } => {
                    lemma_found_wf(state, Role::Window, window);
                },
                _ => {},
            }
        },
        (Mode::ManageFrame { window, ignore_unmap, geometry }, Reply::Window(frame)) => {
            let client = Client {
                window,
                frame,
                ignore_unmap,
                title_height: state.title_height() as u32,
            };
            lemma_adopt_wf(state.clients, client);
        },
        _ => {},
    }
}

/// The beginning of the startup scan leaves the state well formed.
pub proof fn lemma_scan_wf(state: EnvState)
    requires
        state.wf(),
    ensures
        state.scan().0.wf(),
{
}

/// A whole conversation leaves the state well formed.
pub proof fn lemma_run_wf(state: EnvState, replies: Seq<Reply>)
    requires
        state.wf(),
    ensures
        state.run(replies).0.wf(),
    decreases replies.len(),
{
    if replies.len() > 0 {
        lemma_run_wf(state, replies.drop_last());
        lemma_step_wf(state.run(replies.drop_last()).0, replies.last());
    }
}

/// No two clients ever share a frame, as long as the server answers each request for a new
/// frame with a window that frames no client yet.
pub proof fn lemma_step_keeps_frames_distinct(state: EnvState, reply: Reply)
    requires
        distinct_frames(state.clients),
        state.mode is ManageFrame ==> (reply matches Reply::Window(frame) ==> !frames(
            state.clients,
            frame,
        )),
    ensures
        distinct_frames(state.step(reply).0.clients),
{
    match (state.mode, reply) {
        (Mode::Running, Reply::Event(event)) => {
            match event {
                Event::Unmap { window } => {
                    lemma_unmanage_keeps_frames_distinct(state.clients, window);
                },
                Event::Destroy { window } => {
                    lemma_unmanage_keeps_frames_distinct(state.clients, window);
                },
                _ => {},
            }
        },
        (Mode::ManageFrame { window, ignore_unmap, .. }, Reply::Window(frame)) => {
            let client = Client {
                window,
                frame,
                ignore_unmap,
                title_height: state.title_height() as u32,
            };
            lemma_adopt_keeps_frames_distinct(state.clients, client);
        },
        _ => {},
    }
}

/// The manager and the server take turns. A reply that answers the pending query is
/// followed by commands and then by exactly one query, which is the one pending
/// afterwards. Any other reply is ignored: nothing changes and nothing is asked.
pub proof fn lemma_step_asks(state: EnvState, reply: Reply)
    ensures
        state.pending().answered_by(reply) ==> ends_in_query(state.step(reply).1)
            && state.step(reply).1.last() == state.step(reply).0.pending(),
        !state.pending().answered_by(reply) ==> state.step(reply) == (
            state,
            Seq::<Request>::empty(),
        ),
{
}

/// The beginning of the startup scan asks for the list of windows, and nothing else.
pub proof fn lemma_scan_asks(state: EnvState)
    requires
        state.mode == Mode::Running,
    ensures
        ends_in_query(state.scan().1),
        state.scan().1.last() == state.scan().0.pending(),
{
}

/// A window has a frame exactly if it is managed.
pub proof fn lemma_frame_iff_managed(state: EnvState, window: Window)
    ensures
        frame_of(state.clients, window) is Some <==> manages(state.clients, window),
{
    lemma_frame_of_iff_managed(state.clients, window);
}

/// An unmap or destroy notification for a window that is not managed changes nothing: the
/// manager just waits for the next event.
pub proof fn lemma_unmanage_untracked_is_noop(state: EnvState, window: Window)
    requires
        state.wf(),
        state.mode == Mode::Running,
        !manages(state.clients, window),
    ensures
        state.step(Reply::Event(Event::Unmap { window })) == (state, seq![Request::NextEvent]),
        state.step(Reply::Event(Event::Destroy { window })) == (state, seq![Request::NextEvent]),
{
    lemma_unmanage_untracked(state.clients, window);
    assert(state.unmanage(window).1 =~= seq![Request::NextEvent]);
}

/// A map request for a window that is managed already changes nothing: no geometry is
/// asked for and no frame is created, the manager just waits for the next event.
pub proof fn lemma_manage_tracked_is_noop(state: EnvState, window: Window)
    requires
        state.wf(),
        state.mode == Mode::Running,
        manages(state.clients, window),
    ensures
        state.step(Reply::Event(Event::MapRequest { window })) == (
            state,
            seq![Request::NextEvent],
        ),
{
    assert(state.manage(window, false).1 =~= seq![Request::NextEvent]);
}

/// An event about a window that is neither a client's window nor a frame changes nothing,
/// unless it is the request to map that window.
pub proof fn lemma_unknown_window_is_ignored(state: EnvState, event: Event, window: Window)
    requires
        state.wf(),
        state.mode == Mode::Running,
        !manages(state.clients, window),
        !frames(state.clients, window),
        event.window_spec() == Some(window),
        !(event is MapRequest),
    ensures
        state.step(Reply::Event(event)) == (state, seq![Request::NextEvent]),
{
    lemma_frame_of_iff_managed(state.clients, window);
    lemma_client_of_iff_frames(state.clients, window);
    lemma_unmanage_untracked(state.clients, window);
    assert(state.resume(Seq::empty()).1 =~= seq![Request::NextEvent]);
}

/// The mark of a client adopted at startup is cleared by the first unmap notification for
/// its window, which leaves the client in the table and destroys nothing. The second
/// notification takes the client out of the table and destroys its frame.
pub proof fn lemma_unmap_twice_removes(state: EnvState, window: Window)
    requires
        state.wf(),
        state.mode == Mode::Running,
        find(state.clients, Role::Window, window) matches Some(client) && client.ignore_unmap,
    ensures
        ({
            let client = find(state.clients, Role::Window, window)->0;
            let first = state.step(Reply::Event(Event::Unmap { window }));
            let second = first.0.step(Reply::Event(Event::Unmap { window }));
            &&& first.1 == seq![Request::NextEvent]
            &&& first.0.mode == Mode::Running
            &&& find(first.0.clients, Role::Window, window) == Some(
                Client { ignore_unmap: false, ..client },
            )
            &&& second.1 == seq![
                Request::DestroyWindow { window: client.frame },
                Request::NextEvent,
            ]
            &&& second.0.mode == Mode::Running
            &&& !manages(second.0.clients, window)
        }),
{
    lemma_unmap_twice(state.clients, window);
    let first = state.step(Reply::Event(Event::Unmap { window }));
    assert(first.1 =~= seq![Request::NextEvent]);
    let second = first.0.step(Reply::Event(Event::Unmap { window }));
    let client = find(state.clients, Role::Window, window)->0;
    assert(second.1 =~= seq![
        Request::DestroyWindow { window: client.frame },
        Request::NextEvent,
    ]);
}

/// A window is never adopted smaller than the floor: neither side of the adopted size is
/// below its floor, nor below what the window had.
pub proof fn lemma_adopted_size_floor(geometry: Geometry)
    ensures
        geometry.adopted_width() >= FLOOR_WIDTH,
        geometry.adopted_height() >= FLOOR_HEIGHT,
        geometry.adopted_width() >= geometry.width,
        geometry.adopted_height() >= geometry.height,
{
}

/// Whatever geometry the server reports for a window that is being adopted, the frame
/// asked for is at the window's position and has the adopted size with the title bar on
/// top; so it is at least as large as the floor.
pub proof fn lemma_frame_respects_floor(state: EnvState, geometry: Geometry)
    requires
        state.mode is ManageGeometry,
    ensures
        ({
            let asked = state.step(Reply::Geometry(geometry)).1;
            &&& asked.len() == 1
            &&& asked[0] matches Request::CreateWindow { x, y, width, height }
            &&& x == geometry.x && y == geometry.y
            &&& width == geometry.adopted_width() && width >= FLOOR_WIDTH
            &&& height == geometry.adopted_height() + state.title_height()
            &&& height >= FLOOR_HEIGHT
        }),
{
}

/// While a drag goes on, nothing but the release of the button changes the state.
pub proof fn lemma_drag_holds(state: EnvState, during: Seq<Reply>)
    requires
        state.mode is Moving || state.mode is Resizing,
        forall|i: int|
            0 <= i < during.len() ==> !(#[trigger] during[i] matches Reply::Event(
                Event::ButtonRelease { .. },
            )),
    ensures
        state.run(during).0 == state,
    decreases during.len(),
{
    if during.len() > 0 {
        lemma_drag_holds(state, during.drop_last());
        assert(during.drop_last().len() == during.len() - 1);
        let last = during[during.len() - 1];
        assert(!(last matches Reply::Event(Event::ButtonRelease { .. })));
    }
}

/// A move ends with the frame at the pointer's last position less the offset at which the
/// frame was grabbed, whatever was received while the button was held and however much of
/// it.
pub proof fn lemma_move_drag_result(
    state: EnvState,
    during: Seq<Reply>,
    x_root: i16,
    y_root: i16,
)
    requires
        state.wf(),
        state.mode is Moving,
        forall|i: int|
            0 <= i < during.len() ==> !(#[trigger] during[i] matches Reply::Event(
                Event::ButtonRelease { .. },
            )),
    ensures
        ({
            let held = state.run(during).0;
            let end = held.step(Reply::Event(Event::ButtonRelease { x_root, y_root }));
            &&& state.mode matches Mode::Moving { client, off_x, off_y }
            &&& end.1 == seq![
                Request::MoveWindow {
                    window: client.frame,
                    x: (x_root - off_x) as i32,
                    y: (y_root - off_y) as i32,
                },
                Request::NextEvent,
            ]
            &&& end.0 == (EnvState { mode: Mode::Running, ..state })
        }),
{
    lemma_drag_holds(state, during);
    let end = state.step(Reply::Event(Event::ButtonRelease { x_root, y_root }));
    match state.mode {
        Mode::Moving { client, off_x, off_y } => {
            assert(end.1 =~= seq![
                Request::MoveWindow {
                    window: client.frame,
                    x: (x_root - off_x) as i32,
                    y: (y_root - off_y) as i32,
                },
                Request::NextEvent,
            ]);
        },
        _ => {},
    }
}

/// A resize ends with the frame as wide and as high as the pointer's last position is far
/// from the frame's origin, on whichever side; the client gets the same width and the
/// height less the title bar. No side is ever negative.
pub proof fn lemma_resize_drag_result(
    state: EnvState,
    during: Seq<Reply>,
    x_root: i16,
    y_root: i16,
)
    requires
        state.wf(),
        state.mode is Resizing,
        forall|i: int|
            0 <= i < during.len() ==> !(#[trigger] during[i] matches Reply::Event(
                Event::ButtonRelease { .. },
            )),
    ensures
        ({
            let held = state.run(during).0;
            let end = held.step(Reply::Event(Event::ButtonRelease { x_root, y_root }));
            let width = abs_int(x_root - state.mode->Resizing_origin_x);
            let height = abs_int(y_root - state.mode->Resizing_origin_y);
            &&& state.mode matches Mode::Resizing { client, .. }
            &&& width >= 0 && height >= 0
            &&& end.1 == seq![
                Request::ResizeWindow {
                    window: client.frame,
                    width: width as u32,
                    height: height as u32,
                },
                Request::ResizeWindow {
                    window: client.window,
                    width: width as u32,
                    height: max_int(height - client.title_height, 0) as u32,
                },
                Request::NextEvent,
            ]
            &&& end.0 == (EnvState { mode: Mode::Running, ..state })
        }),
{
    lemma_drag_holds(state, during);
    let end = state.step(Reply::Event(Event::ButtonRelease { x_root, y_root }));
    match state.mode {
        Mode::Resizing { client, origin_x, origin_y } => {
            let width = abs_int(x_root - origin_x);
            let height = abs_int(y_root - origin_y);
            assert(end.1 =~= seq![
                Request::ResizeWindow {
                    window: client.frame,
                    width: width as u32,
                    height: height as u32,
                },
                Request::ResizeWindow {
                    window: client.window,
                    width: width as u32,
                    height: max_int(height - client.title_height, 0) as u32,
                },
                Request::NextEvent,
            ]);
        },
        _ => {},
    }
}

} // verus!
