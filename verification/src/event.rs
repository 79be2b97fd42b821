//! Events from the display server, and how their numeric codes are told apart.
//!
//! The numbers themselves are taken from the `x11` crate, one small trusted function per
//! constant; the decisions made on them are verified.

use vstd::prelude::*;
use crate::geometry::Window;

verus! {

/// `x11::xlib::ButtonPress`, the type code of a button-press event: 4.
#[verifier::external_body]
fn button_press_code() -> (code: i32)
    ensures
        code == 4,
{
    x11::xlib::ButtonPress
}

/// `x11::xlib::ButtonRelease`, the type code of a button-release event: 5.
#[verifier::external_body]
fn button_release_code() -> (code: i32)
    ensures
        code == 5,
{
    x11::xlib::ButtonRelease
}

/// `x11::xlib::MotionNotify`, the type code of a pointer-motion event: 6.
#[verifier::external_body]
fn motion_notify_code() -> (code: i32)
    ensures
        code == 6,
{
    x11::xlib::MotionNotify
}

/// `x11::xlib::Expose`, the type code of an exposure event: 12.
#[verifier::external_body]
fn expose_code() -> (code: i32)
    ensures
        code == 12,
{
    x11::xlib::Expose
}

/// `x11::xlib::DestroyNotify`, the type code of a destroy notification: 17.
#[verifier::external_body]
fn destroy_notify_code() -> (code: i32)
    ensures
        code == 17,
{
    x11::xlib::DestroyNotify
}

/// `x11::xlib::UnmapNotify`, the type code of an unmap notification: 18.
#[verifier::external_body]
fn unmap_notify_code() -> (code: i32)
    ensures
        code == 18,
{
    x11::xlib::UnmapNotify
}

/// `x11::xlib::MapRequest`, the type code of a map request: 20.
#[verifier::external_body]
fn map_request_code() -> (code: i32)
    ensures
        code == 20,
{
    x11::xlib::MapRequest
}

/// `x11::xlib::ConfigureRequest`, the type code of a configure request: 23.
#[verifier::external_body]
fn configure_request_code() -> (code: i32)
    ensures
        code == 23,
{
    x11::xlib::ConfigureRequest
}

/// `x11::xlib::PropertyNotify`, the type code of a property notification: 28.
#[verifier::external_body]
fn property_notify_code() -> (code: i32)
    ensures
        code == 28,
{
    x11::xlib::PropertyNotify
}

/// `x11::xlib::Button1`, the number of the first pointer button: 1.
#[verifier::external_body]
fn button1_code() -> (code: u32)
    ensures
        code == 1,
{
    x11::xlib::Button1
}

/// `x11::xlib::Button2`, the number of the second pointer button: 2.
#[verifier::external_body]
fn button2_code() -> (code: u32)
    ensures
        code == 2,
{
    x11::xlib::Button2
}

/// `x11::xlib::Button3`, the number of the third pointer button: 3.
#[verifier::external_body]
fn button3_code() -> (code: u32)
    ensures
        code == 3,
{
    x11::xlib::Button3
}

/// The kinds of event the manager distinguishes. Every other kind is `Unknown`.
#[derive(Clone, Copy, Debug, PartialEq, Eq, Structural)]
pub enum EventKind {
    ButtonPress,
    ButtonRelease,
    MotionNotify,
    Expose,
    MapRequest,
    Unmap,
    Destroy,
    ConfigureRequest,
    PropertyNotify,
    Unknown,
}

impl EventKind {
    /// The kind that a type code stands for.
    pub open spec fn of_code(code: int) -> EventKind {
        if code == 4 {
            EventKind::ButtonPress
        } else if code == 5 {
            EventKind::ButtonRelease
        } else if code == 6 {
            EventKind::MotionNotify
        } else if code == 12 {
            EventKind::Expose
        } else if code == 20 {
            EventKind::MapRequest
        } else if code == 18 {
            EventKind::Unmap
        } else if code == 17 {
            EventKind::Destroy
        } else if code == 23 {
            EventKind::ConfigureRequest
        } else if code == 28 {
            EventKind::PropertyNotify
        } else {
            EventKind::Unknown
        }
    }

    /// Reads the type code of an event. A code the manager has no use for gives `Unknown`,
    /// so that the caller decodes the payload of known kinds only.
    pub fn from_code(code: i32) -> (kind: EventKind)
        ensures
            kind == EventKind::of_code(code as int),
    {
        if code == button_press_code() {
            EventKind::ButtonPress
        } else if code == button_release_code() {
            EventKind::ButtonRelease
        } else if code == motion_notify_code() {
            EventKind::MotionNotify
        } else if code == expose_code() {
            EventKind::Expose
        } else if code == map_request_code() {
            EventKind::MapRequest
        } else if code == unmap_notify_code() {
            EventKind::Unmap
        } else if code == destroy_notify_code() {
            EventKind::Destroy
        } else if code == configure_request_code() {
            EventKind::ConfigureRequest
        } else if code == property_notify_code() {
            EventKind::PropertyNotify
        } else {
            EventKind::Unknown
        }
    }
}

/// The pointer buttons the manager reacts to. Every other button is `Other`.
#[derive(Clone, Copy, Debug, PartialEq, Eq, Structural)]
pub enum Button {
    Button1,
    Button2,
    Button3,
    Other,
}

impl Button {
    /// The button that a button number stands for.
    pub open spec fn of_code(code: int) -> Button {
        if code == 1 {
            Button::Button1
        } else if code == 2 {
            Button::Button2
        } else if code == 3 {
            Button::Button3
        } else {
            Button::Other
        }
    }

    /// Reads the button number carried by a button event.
    pub fn from_code(code: u32) -> (button: Button)
        ensures
            button == Button::of_code(code as int),
    {
        if code == button1_code() {
            Button::Button1
        } else if code == button2_code() {
            Button::Button2
        } else if code == button3_code() {
            Button::Button3
        } else {
            Button::Other
        }
    }
}

/// One event, decoded: its kind and the fields of the payload that the manager reads.
#[derive(Clone, Copy, Debug, PartialEq, Eq, Structural)]
pub enum Event {
    /// A pointer button went down over `window`.
    ButtonPress { window: Window, button: u32 },
    /// A pointer button came up, at this position relative to the root window.
    ButtonRelease { x_root: i16, y_root: i16 },
    /// The pointer moved to this position relative to the root window.
    MotionNotify { x_root: i16, y_root: i16 },
    /// Part of `window` needs repainting; `count` more such events follow in the batch.
    Expose { window: Window, count: i32 },
    /// A client asks for `window` to be shown.
    MapRequest { window: Window },
    /// `window` was hidden.
    Unmap { window: Window },
    /// `window` was destroyed.
    Destroy { window: Window },
    /// A client asks for another position or size for `window`.
    ConfigureRequest { window: Window },
    /// A property of `window`, such as its name, changed.
    PropertyNotify { window: Window },
    /// An event of any other kind.
    Unknown,
}

impl Event {
    /// The kind of an event.
    pub open spec fn kind_spec(self) -> EventKind {
        match self {
            Event::ButtonPress { .. } => EventKind::ButtonPress,
            Event::ButtonRelease { .. } => EventKind::ButtonRelease,
            Event::MotionNotify { .. } => EventKind::MotionNotify,
            Event::Expose { .. } => EventKind::Expose,
            Event::MapRequest { .. } => EventKind::MapRequest,
            Event::Unmap { .. } => EventKind::Unmap,
            Event::Destroy { .. } => EventKind::Destroy,
            Event::ConfigureRequest { .. } => EventKind::ConfigureRequest,
            Event::PropertyNotify { .. } => EventKind::PropertyNotify,
            Event::Unknown => EventKind::Unknown,
        }
    }

    /// The window that an event is about: none for pointer motion, a button release and
    /// events of unknown kind.
    pub open spec fn window_spec(self) -> Option<Window> {
        match self {
            Event::ButtonPress { window, .. } => Some(window),
            Event::Expose { window, .. } => Some(window),
            Event::MapRequest { window } => Some(window),
            Event::Unmap { window } => Some(window),
            Event::Destroy { window } => Some(window),
            Event::ConfigureRequest { window } => Some(window),
            Event::PropertyNotify { window } => Some(window),
            _ => None,
        }
    }

    /// The window that an event is about.
    pub fn window(&self) -> (window: Option<Window>)
        ensures
            window == self.window_spec(),
    {
        match self {
            Event::ButtonPress { window, .. } => Some(*window),
            Event::Expose { window, .. } => Some(*window),
            Event::MapRequest { window } => Some(*window),
            Event::Unmap { window } => Some(*window),
            Event::Destroy { window } => Some(*window),
            Event::ConfigureRequest { window } => Some(*window),
            Event::PropertyNotify { window } => Some(*window),
            _ => None,
        }
    }

    /// The kind of an event.
    pub fn kind(&self) -> (kind: EventKind)
        ensures
            kind == self.kind_spec(),
    {
        match self {
            Event::ButtonPress { .. } => EventKind::ButtonPress,
            Event::ButtonRelease { .. } => EventKind::ButtonRelease,
            Event::MotionNotify { .. } => EventKind::MotionNotify,
            Event::Expose { .. } => EventKind::Expose,
            Event::MapRequest { .. } => EventKind::MapRequest,
            Event::Unmap { .. } => EventKind::Unmap,
            Event::Destroy { .. } => EventKind::Destroy,
            Event::ConfigureRequest { .. } => EventKind::ConfigureRequest,
            Event::PropertyNotify { .. } => EventKind::PropertyNotify,
            Event::Unknown => EventKind::Unknown,
        }
    }
}

} // verus!
