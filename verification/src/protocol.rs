//! What the manager asks of the display server, and what the server answers.
//!
//! A [`Request`] is either a command, which the server carries out without an answer, or a
//! query, which is answered by exactly one [`Reply`].

use vstd::prelude::*;
use crate::event::Event;
use crate::geometry::{Geometry, Pointer, Window};

verus! {

/// One operation for the caller to carry out on the display server.
#[derive(Clone, Debug, PartialEq, Eq)]
pub enum Request {
    /// Query: list the children of the root window, answered by [`Reply::Tree`].
    QueryTree,
    /// Query: read the attributes of `window`, answered by [`Reply::Attributes`].
    GetAttributes { window: Window },
    /// Query: read the geometry of `window`, answered by [`Reply::Geometry`].
    GetGeometry { window: Window },
    /// Query: read the pointer position relative to `window`, answered by
    /// [`Reply::Pointer`].
    QueryPointer { window: Window },
    /// Query: wait for the next event, answered by [`Reply::Event`].
    NextEvent,
    /// Query: create a frame window under the root, answered by [`Reply::Window`].
    CreateWindow { x: i32, y: i32, width: u32, height: u32 },
    /// Query: read the name of `window`, answered by [`Reply::Name`].
    FetchName { window: Window },
    /// Command: move `window` to a position.
    MoveWindow { window: Window, x: i32, y: i32 },
    /// Command: give `window` a size.
    ResizeWindow { window: Window, width: u32, height: u32 },
    /// Command: make `window` a child of `parent`, at a position inside it.
    ReparentWindow { window: Window, parent: Window, x: i32, y: i32 },
    /// Command: show `window`.
    MapWindow { window: Window },
    /// Command: have the server hand `window` back to the root if the manager goes away.
    AddToSaveset { window: Window },
    /// Command: destroy `window`.
    DestroyWindow { window: Window },
    /// Command: clear `window` to its background.
    ClearWindow { window: Window },
    /// Command: draw `text` in `window`, its baseline starting at a position.
    DrawString { window: Window, text: String, x: i32, y: i32 },
    /// Command: put `window` on top of its siblings.
    RaiseWindow { window: Window },
    /// Command: close the connection of the client that owns `window`.
    KillClient { window: Window },
    /// Command: move the pointer to the far corner of `window`, whose geometry is given.
    WarpPointer { window: Window, x: i32, y: i32, width: u32, height: u32 },
}

/// The server's answer to a query.
#[derive(Clone, Debug, PartialEq, Eq)]
pub enum Reply {
    /// The children of the root window, bottom-most first.
    Tree(Vec<Window>),
    /// The attributes of a window that the manager reads.
    Attributes { override_redirect: bool },
    /// The geometry of a window.
    Geometry(Geometry),
    /// The position of the pointer.
    Pointer(Pointer),
    /// The identifier of a window just created.
    Window(Window),
    /// The name of a window.
    Name(String),
    /// The next event.
    Event(Event),
}

impl Request {
    /// Whether a request is a query, that is, one the server answers.
    pub open spec fn is_query(self) -> bool {
        match self {
            Request::QueryTree => true,
            Request::GetAttributes { .. } => true,
            Request::GetGeometry { .. } => true,
            Request::QueryPointer { .. } => true,
            Request::NextEvent => true,
            Request::CreateWindow { .. } => true,
            Request::FetchName { .. } => true,
            _ => false,
        }
    }

    /// Whether `reply` is of the kind that answers this request. No reply answers a command.
    pub open spec fn answered_by(self, reply: Reply) -> bool {
        match self {
            Request::QueryTree => reply is Tree,
            Request::GetAttributes { .. } => reply is Attributes,
            Request::GetGeometry { .. } => reply is Geometry,
            Request::QueryPointer { .. } => reply is Pointer,
            Request::NextEvent => reply is Event,
            Request::CreateWindow { .. } => reply is Window,
            Request::FetchName { .. } => reply is Name,
            _ => false,
        }
    }

    /// Whether this request is a query.
    pub fn expects_reply(&self) -> (b: bool)
        ensures
            b == self.is_query(),
    {
        match self {
            Request::QueryTree => true,
            Request::GetAttributes { .. } => true,
            Request::GetGeometry { .. } => true,
            Request::QueryPointer { .. } => true,
            Request::NextEvent => true,
            Request::CreateWindow { .. } => true,
            Request::FetchName { .. } => true,
            _ => false,
        }
    }

    /// Whether `reply` is of the kind that answers this request.
    pub fn accepts(&self, reply: &Reply) -> (b: bool)
        ensures
            b == self.answered_by(*reply),
    {
        match (self, reply) {
            (Request::QueryTree, Reply::Tree(_)) => true,
            (Request::GetAttributes { .. }, Reply::Attributes { .. }) => true,
            (Request::GetGeometry { .. }, Reply::Geometry(_)) => true,
            (Request::QueryPointer { .. }, Reply::Pointer(_)) => true,
            (Request::NextEvent, Reply::Event(_)) => true,
            (Request::CreateWindow { .. }, Reply::Window(_)) => true,
            (Request::FetchName { .. }, Reply::Name(_)) => true,
            _ => false,
        }
    }
}

/// Every request of `requests` before the last is a command, and the last is a query.
pub open spec fn ends_in_query(requests: Seq<Request>) -> bool {
    &&& requests.len() > 0
    &&& requests.last().is_query()
    &&& forall|i: int| 0 <= i < requests.len() - 1 ==> !(#[trigger] requests[i]).is_query()
}

} // verus!
