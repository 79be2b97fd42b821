//! Plain geometry: the values the display server reports and the arithmetic of frames.
//!
//! Positions and sizes that arrive from the server use the widths the X protocol gives them
//! (16 bits), so every sum and difference below fits the 32-bit values that go back out.

use vstd::prelude::*;

verus! {

/// Identifier of a window on the display server.
pub type Window = u64;

/// Smallest width a window is adopted with.
pub const FLOOR_WIDTH: u32 = 600;

/// Smallest height a window is adopted with.
pub const FLOOR_HEIGHT: u32 = 400;

/// Margin, in pixels, between a frame's edge and the client placed inside it.
pub const INSET: u32 = 5;

/// Title bar height used when the server offers no font metrics.
pub const DEFAULT_TITLE_HEIGHT: u32 = 18;

/// Baseline of the title text used when the server offers no font metrics.
pub const DEFAULT_ASCENT: i32 = 14;

/// Horizontal position at which the title text starts.
pub const TITLE_X: i32 = 5;

/// Largest title bar height that font metrics can give.
pub const MAX_TITLE_HEIGHT: u32 = 131070;

/// Position and size of a window, as the server reports them.
#[derive(Clone, Copy, Debug, PartialEq, Eq, Structural)]
pub struct Geometry {
    pub x: i16,
    pub y: i16,
    pub width: u16,
    pub height: u16,
}

/// Position of the pointer, relative to the root window and to the window that was asked
/// about.
#[derive(Clone, Copy, Debug, PartialEq, Eq, Structural)]
pub struct Pointer {
    pub root_x: i16,
    pub root_y: i16,
    pub win_x: i16,
    pub win_y: i16,
}

/// Vertical extents of the font that titles are drawn with.
#[derive(Clone, Copy, Debug, PartialEq, Eq, Structural)]
pub struct FontMetrics {
    pub ascent: u16,
    pub descent: u16,
}

/// The larger of two integers.
pub open spec fn max_int(a: int, b: int) -> int {
    if a >= b {
        a
    } else {
        b
    }
}

/// The distance of an integer from zero.
pub open spec fn abs_int(a: int) -> int {
    if a >= 0 {
        a
    } else {
        -a
    }
}

/// Height of the title bar for a font: ascent plus descent, or the default without a font.
pub open spec fn title_height_spec(font: Option<FontMetrics>) -> int {
    match font {
        Some(f) => f.ascent + f.descent,
        None => DEFAULT_TITLE_HEIGHT as int,
    }
}

/// Baseline at which the title is drawn: the font's ascent, or the default without a font.
pub open spec fn baseline_spec(font: Option<FontMetrics>) -> int {
    match font {
        Some(f) => f.ascent as int,
        None => DEFAULT_ASCENT as int,
    }
}

impl Geometry {
    /// Width a window of this geometry is adopted with: its own, but at least the floor.
    pub open spec fn adopted_width(self) -> int {
        max_int(self.width as int, FLOOR_WIDTH as int)
    }

    /// Height a window of this geometry is adopted with: its own, but at least the floor.
    pub open spec fn adopted_height(self) -> int {
        max_int(self.height as int, FLOOR_HEIGHT as int)
    }

    /// The size a window of this geometry is adopted with. Neither side is ever below its
    /// floor, and neither is below what the window had.
    pub fn adopted_size(&self) -> (size: (u32, u32))
        ensures
            size.0 == self.adopted_width(),
            size.1 == self.adopted_height(),
            size.0 >= FLOOR_WIDTH && size.0 >= self.width,
            size.1 >= FLOOR_HEIGHT && size.1 >= self.height,
    {
        let width: u32 = if self.width as u32 >= FLOOR_WIDTH {
            self.width as u32
        } else {
            FLOOR_WIDTH
        };
        let height: u32 = if self.height as u32 >= FLOOR_HEIGHT {
            self.height as u32
        } else {
            FLOOR_HEIGHT
        };
        (width, height)
    }
}

/// Where a window dragged by the pointer goes, along one axis: the pointer's position less
/// the offset at which the window was grabbed.
pub fn drag_position(pointer: i16, offset: i16) -> (position: i32)
    ensures
        position == pointer - offset,
{
    pointer as i32 - offset as i32
}

/// The extent of a window resized by the pointer, along one axis: the distance of the
/// pointer from the window's origin, whichever side of the origin the pointer is on.
pub fn drag_extent(pointer: i16, origin: i16) -> (extent: u32)
    ensures
        extent == abs_int(pointer - origin),
{
    let delta: i32 = pointer as i32 - origin as i32;
    if delta >= 0 {
        delta as u32
    } else {
        (-delta) as u32
    }
}

/// Height of the title bar for a font.
pub fn title_height(font: Option<FontMetrics>) -> (h: u32)
    ensures
        h == title_height_spec(font),
        h <= MAX_TITLE_HEIGHT,
{
    match font {
        Some(f) => f.ascent as u32 + f.descent as u32,
        None => DEFAULT_TITLE_HEIGHT,
    }
}

/// Baseline at which the title is drawn.
pub fn baseline(font: Option<FontMetrics>) -> (y: i32)
    ensures
        y == baseline_spec(font),
{
    match font {
        Some(f) => f.ascent as i32,
        None => DEFAULT_ASCENT,
    }
}

} // verus!
