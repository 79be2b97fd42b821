//! What the manager is in the middle of, and the answer it is waiting for.

use vstd::prelude::*;
use crate::client::Client;
use crate::geometry::{title_height, title_height_spec, FontMetrics, Geometry, Window};
use crate::protocol::Request;

verus! {

/// The operation in progress. Each mode waits for the answer to one query.
#[derive(Clone, Copy, Debug, PartialEq, Eq, Structural)]
pub enum Mode {
    /// Nothing is in progress: the manager waits for the next event.
    Running,
    /// The startup scan waits for the list of windows.
    AwaitTree,
    /// The startup scan waits for the attributes of `window`.
    ScanAttributes { window: Window },
    /// `window` is being adopted: its geometry is awaited.
    ManageGeometry { window: Window, ignore_unmap: bool },
    /// `window` is being adopted: its frame is awaited.
    ManageFrame { window: Window, ignore_unmap: bool, geometry: Geometry },
    /// The client asked for another geometry: the one it has is awaited.
    ConfigureGeometry { client: Client },
    /// The title is to be painted: the client's name is awaited.
    RedrawName { client: Client },
    /// A move begins: the pointer's position inside the frame is awaited.
    MoveGrab { client: Client },
    /// The frame follows the pointer, held at this offset, until the button is released.
    Moving { client: Client, off_x: i16, off_y: i16 },
    /// A resize begins: the frame's geometry is awaited.
    ResizeGrab { client: Client },
    /// The frame stretches from this origin to the pointer until the button is released.
    Resizing { client: Client, origin_x: i16, origin_y: i16 },
}

impl Mode {
    /// The client that the operation in progress holds, if it holds one.
    pub open spec fn client(self) -> Option<Client> {
        match self {
            Mode::ConfigureGeometry { client } => Some(client),
            Mode::RedrawName { client } => Some(client),
            Mode::MoveGrab { client } => Some(client),
            Mode::Moving { client, .. } => Some(client),
            Mode::ResizeGrab { client } => Some(client),
            Mode::Resizing { client, .. } => Some(client),
            _ => None,
        }
    }

    /// The window that is being adopted, if one is.
    pub open spec fn adopting(self) -> Option<Window> {
        match self {
            Mode::ManageGeometry { window, .. } => Some(window),
            Mode::ManageFrame { window, .. } => Some(window),
            _ => None,
        }
    }

    /// The startup scan is looking at a window, or adopting it.
    pub open spec fn scanning(self) -> bool {
        self is ScanAttributes || self is ManageGeometry || self is ManageFrame
    }

    /// The query whose answer this mode waits for.
    pub open spec fn pending_spec(self, font: Option<FontMetrics>) -> Request {
        match self {
            Mode::Running => Request::NextEvent,
            Mode::AwaitTree => Request::QueryTree,
            Mode::ScanAttributes { window } => Request::GetAttributes { window },
            Mode::ManageGeometry { window, .. } => Request::GetGeometry { window },
            Mode::ManageFrame { geometry, .. } => Client::frame_request(
                geometry,
                title_height_spec(font),
            ),
            Mode::ConfigureGeometry { client } => Request::GetGeometry { window: client.window },
            Mode::RedrawName { client } => Request::FetchName { window: client.window },
            Mode::MoveGrab { client } => Request::QueryPointer { window: client.frame },
            Mode::Moving { .. } => Request::NextEvent,
            Mode::ResizeGrab { client } => Request::GetGeometry { window: client.frame },
            Mode::Resizing { .. } => Request::NextEvent,
        }
    }

    /// The query whose answer this mode waits for.
    pub fn pending(&self, font: Option<FontMetrics>) -> (request: Request)
        ensures
            request == self.pending_spec(font),
            request.is_query(),
    {
        match self {
            Mode::Running => Request::NextEvent,
            Mode::AwaitTree => Request::QueryTree,
            Mode::ScanAttributes { window } => Request::GetAttributes { window: *window },
            Mode::ManageGeometry { window, .. } => Request::GetGeometry { window: *window },
            Mode::ManageFrame { geometry, .. } => Client::frame_for(*geometry, title_height(font)),
            Mode::ConfigureGeometry { client } => Request::GetGeometry { window: client.window },
            Mode::RedrawName { client } => Request::FetchName { window: client.window },
            Mode::MoveGrab { client } => Request::QueryPointer { window: client.frame },
            Mode::Moving { .. } => Request::NextEvent,
            Mode::ResizeGrab { client } => Request::GetGeometry { window: client.frame },
            Mode::Resizing { .. } => Request::NextEvent,
        }
    }
}

} // verus!
