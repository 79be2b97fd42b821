//! A managed window and the requests that keep its frame in step with it.

use vstd::prelude::*;
use crate::event::Button;
use crate::geometry::{
    abs_int, baseline, baseline_spec, drag_extent, drag_position, max_int, FontMetrics,
    Geometry, Window, INSET, MAX_TITLE_HEIGHT, TITLE_X,
};
use crate::mode::Mode;
use crate::protocol::Request;

verus! {

/// One managed top-level window.
#[derive(Clone, Copy, Debug, PartialEq, Eq, Structural)]
pub struct Client {
    /// The application's own window.
    pub window: Window,
    /// The decoration window that the manager created around it.
    pub frame: Window,
    /// Set for a window adopted at startup: the next unmap notification for it is the echo
    /// of its reparenting and is absorbed.
    pub ignore_unmap: bool,
    /// Height of the title bar, fixed when the window was adopted.
    pub title_height: u32,
}

impl Client {
    /// The title bar is no higher than font metrics can make it.
    pub open spec fn wf(self) -> bool {
        self.title_height <= MAX_TITLE_HEIGHT
    }

    /// The frame to create for a window with this geometry: at the window's position, as
    /// large as the adopted size with the title bar on top.
    pub open spec fn frame_request(geometry: Geometry, title_height: int) -> Request {
        Request::CreateWindow {
            x: geometry.x as i32,
            y: geometry.y as i32,
            width: geometry.adopted_width() as u32,
            height: (geometry.adopted_height() + title_height) as u32,
        }
    }

    /// What adopting a window takes once its frame exists: the window goes into the frame,
    /// the margin away from the left edge and the margin below the title bar, shrinks by
    /// the margin on every side, is shown before its frame is, and enters the save-set.
    pub open spec fn adoption_spec(self, geometry: Geometry) -> Seq<Request> {
        seq![
            Request::ReparentWindow {
                window: self.window,
                parent: self.frame,
                x: INSET as i32,
                y: (INSET + self.title_height) as i32,
            },
            Request::ResizeWindow {
                window: self.window,
                width: (geometry.adopted_width() - 2 * INSET) as u32,
                height: (geometry.adopted_height() - 2 * INSET) as u32,
            },
            Request::MapWindow { window: self.window },
            Request::MapWindow { window: self.frame },
            Request::AddToSaveset { window: self.window },
        ]
    }

    /// Giving the frame a size: the client gets the same width, and the height less the
    /// title bar, though never less than nothing.
    pub open spec fn resize_spec(self, width: int, height: int) -> Seq<Request> {
        seq![
            Request::ResizeWindow {
                window: self.frame,
                width: width as u32,
                height: height as u32,
            },
            Request::ResizeWindow {
                window: self.window,
                width: width as u32,
                height: max_int(height - self.title_height, 0) as u32,
            },
        ]
    }

    /// Following a client to the geometry it has: the frame moves so that the title bar
    /// sits above that position, and grows by the title bar around that size.
    pub open spec fn configure_spec(self, geometry: Geometry) -> Seq<Request> {
        seq![
            Request::MoveWindow {
                window: self.frame,
                x: geometry.x as i32,
                y: (geometry.y - self.title_height) as i32,
            },
        ] + self.resize_spec(geometry.width as int, geometry.height + self.title_height)
    }

    /// Painting the title: the frame is cleared and the client's name drawn into it.
    pub open spec fn redraw_spec(self, name: String, font: Option<FontMetrics>) -> Seq<
        Request,
    > {
        seq![
            Request::ClearWindow { window: self.frame },
            Request::DrawString {
                window: self.frame,
                text: name,
                x: TITLE_X,
                y: baseline_spec(font) as i32,
            },
        ]
    }

    /// Moving the frame with the pointer: it goes to the pointer's position less the offset
    /// at which it was grabbed.
    pub open spec fn drag_move_spec(self, off_x: i16, off_y: i16, x_root: i16, y_root: i16) -> Request {
        Request::MoveWindow {
            window: self.frame,
            x: (x_root - off_x) as i32,
            y: (y_root - off_y) as i32,
        }
    }

    /// Resizing the frame with the pointer: it spans from its origin to the pointer,
    /// whichever side of the origin the pointer is on.
    pub open spec fn drag_resize_spec(
        self,
        origin_x: i16,
        origin_y: i16,
        x_root: i16,
        y_root: i16,
    ) -> Seq<Request> {
        self.resize_spec(abs_int(x_root - origin_x), abs_int(y_root - origin_y))
    }

    /// Putting the pointer on the far corner of the frame, whose geometry is given.
    pub open spec fn warp_spec(self, geometry: Geometry) -> Request {
        Request::WarpPointer {
            window: self.frame,
            x: geometry.x as i32,
            y: geometry.y as i32,
            width: geometry.width as u32,
            height: geometry.height as u32,
        }
    }

    /// What a button pressed on this client's frame starts: the first button a move, the
    /// third a resize, each by raising the frame and asking where things are; the second
    /// kills the client. The mode is `None` where nothing is left to wait for.
    pub open spec fn button_press_spec(self, button: u32) -> (Option<Mode>, Seq<Request>) {
        match Button::of_code(button as int) {
            Button::Button1 => (
                Some(Mode::MoveGrab { client: self }),
                seq![
                    Request::RaiseWindow { window: self.frame },
                    Request::QueryPointer { window: self.frame },
                ],
            ),
            Button::Button2 => (None, seq![Request::KillClient { window: self.window }]),
            Button::Button3 => (
                Some(Mode::ResizeGrab { client: self }),
                seq![
                    Request::RaiseWindow { window: self.frame },
                    Request::GetGeometry { window: self.frame },
                ],
            ),
            Button::Other => (None, Seq::empty()),
        }
    }

    /// The query for the frame of a window about to be adopted.
    pub fn frame_for(geometry: Geometry, title_height: u32) -> (request: Request)
        requires
            title_height <= MAX_TITLE_HEIGHT,
        ensures
            request == Client::frame_request(geometry, title_height as int),
    {
        let (width, height) = geometry.adopted_size();
        Request::CreateWindow {
            x: geometry.x as i32,
            y: geometry.y as i32,
            width,
            height: height + title_height,
        }
    }

    /// Records a window whose frame was just created at `geometry`, and says what it takes
    /// to put the window into that frame.
    pub fn new(
        window: Window,
        frame: Window,
        title_height: u32,
        ignore_unmap: bool,
        geometry: Geometry,
    ) -> (adopted: (Client, Vec<Request>))
        requires
            title_height <= MAX_TITLE_HEIGHT,
        ensures
            adopted.0 == (Client { window, frame, ignore_unmap, title_height }),
            adopted.1@ == adopted.0.adoption_spec(geometry),
    {
        let client = Client { window, frame, ignore_unmap, title_height };
        let (width, height) = geometry.adopted_size();
        let mut requests: Vec<Request> = Vec::new();
        requests.push(
            Request::ReparentWindow {
                window,
                parent: frame,
                x: INSET as i32,
                y: INSET as i32 + title_height as i32,
            },
        );
        requests.push(
            Request::ResizeWindow {
                window,
                width: width - 2 * INSET,
                height: height - 2 * INSET,
            },
        );
        requests.push(Request::MapWindow { window });
        requests.push(Request::MapWindow { window: frame });
        requests.push(Request::AddToSaveset { window });
        assert(requests@ =~= client.adoption_spec(geometry));
        (client, requests)
    }

    /// Gives the frame a size, and the client the room below the title bar.
    pub fn resize(&self, width: u32, height: u32) -> (requests: Vec<Request>)
        ensures
            requests@ == self.resize_spec(width as int, height as int),
    {
        let inner: u32 = if height >= self.title_height {
            height - self.title_height
        } else {
            0
        };
        let mut requests: Vec<Request> = Vec::new();
        requests.push(Request::ResizeWindow { window: self.frame, width, height });
        requests.push(Request::ResizeWindow { window: self.window, width, height: inner });
        assert(requests@ =~= self.resize_spec(width as int, height as int));
        requests
    }

    /// Paints the title: clears the frame and draws the client's name into it.
    pub fn redraw_frame(&self, name: String, font: Option<FontMetrics>) -> (requests: Vec<
        Request,
    >)
        ensures
            requests@ == self.redraw_spec(name, font),
    {
        let mut requests: Vec<Request> = Vec::new();
        requests.push(Request::ClearWindow { window: self.frame });
        requests.push(
            Request::DrawString { window: self.frame, text: name, x: TITLE_X, y: baseline(font) },
        );
        assert(requests@ =~= self.redraw_spec(name, font));
        requests
    }

    /// Follows the client to the geometry it has now.
    pub fn configure(&self, geometry: Geometry) -> (requests: Vec<Request>)
        requires
            self.wf(),
        ensures
            requests@ == self.configure_spec(geometry),
    {
        let mut requests: Vec<Request> = Vec::new();
        requests.push(
            Request::MoveWindow {
                window: self.frame,
                x: geometry.x as i32,
                y: geometry.y as i32 - self.title_height as i32,
            },
        );
        let mut sizes = self.resize(geometry.width as u32, geometry.height as u32 + self.title_height);
        requests.append(&mut sizes);
        assert(requests@ =~= self.configure_spec(geometry));
        requests
    }

    /// The command that closes this client's connection.
    pub fn kill(&self) -> (request: Request)
        ensures
            request == (Request::KillClient { window: self.window }),
    {
        Request::KillClient { window: self.window }
    }

    /// The command that moves the frame under the pointer during a move.
    pub fn move_in_drag(&self, off_x: i16, off_y: i16, x_root: i16, y_root: i16) -> (request:
        Request)
        ensures
            request == self.drag_move_spec(off_x, off_y, x_root, y_root),
    {
        Request::MoveWindow {
            window: self.frame,
            x: drag_position(x_root, off_x),
            y: drag_position(y_root, off_y),
        }
    }

    /// The commands that stretch the frame to the pointer during a resize.
    pub fn resize_in_drag(&self, origin_x: i16, origin_y: i16, x_root: i16, y_root: i16) -> (requests:
        Vec<Request>)
        ensures
            requests@ == self.drag_resize_spec(origin_x, origin_y, x_root, y_root),
    {
        self.resize(drag_extent(x_root, origin_x), drag_extent(y_root, origin_y))
    }

    /// The command that puts the pointer on the far corner of the frame.
    pub fn warp_pointer(&self, geometry: Geometry) -> (request: Request)
        ensures
            request == self.warp_spec(geometry),
    {
        Request::WarpPointer {
            window: self.frame,
            x: geometry.x as i32,
            y: geometry.y as i32,
            width: geometry.width as u32,
            height: geometry.height as u32,
        }
    }

    /// Reacts to a button pressed on this client's frame.
    pub fn handle_button_press(&self, button: u32) -> (started: (Option<Mode>, Vec<Request>))
        ensures
            started.0 == self.button_press_spec(button).0,
            started.1@ == self.button_press_spec(button).1,
    {
        let mut requests: Vec<Request> = Vec::new();
        match Button::from_code(button) {
            Button::Button1 => {
                requests.push(Request::RaiseWindow { window: self.frame });
                requests.push(Request::QueryPointer { window: self.frame });
                assert(requests@ =~= self.button_press_spec(button).1);
                (Some(Mode::MoveGrab { client: *self }), requests)
            },
            Button::Button2 => {
                requests.push(self.kill());
                assert(requests@ =~= self.button_press_spec(button).1);
                (None, requests)
            },
            Button::Button3 => {
                requests.push(Request::RaiseWindow { window: self.frame });
                requests.push(Request::GetGeometry { window: self.frame });
                assert(requests@ =~= self.button_press_spec(button).1);
                (Some(Mode::ResizeGrab { client: *self }), requests)
            },
            Button::Other => {
                assert(requests@ =~= self.button_press_spec(button).1);
                (None, requests)
            },
        }
    }
}

} // verus!
