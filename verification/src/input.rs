//! Plain values that describe pointer input and window geometry.

use vstd::prelude::*;

verus! {

/// Whether a button went down or came up.
#[derive(Copy, Clone, Debug, PartialEq, Eq, Hash, Structural)]
pub enum ElementState {
    Pressed,
    Released,
}

/// A button of a pointing device.
#[derive(Copy, Clone, Debug, PartialEq, Eq, Hash, Structural)]
pub enum MouseButton {
    /// The primary (usually left) button.
    Left,
    /// The secondary (usually right) button.
    Right,
    /// The tertiary (usually middle) button.
    Middle,
    /// The first side button.
    Back,
    /// The second side button.
    Forward,
    /// Any further button, by its number.
    Other(u8),
}

/// A position in physical pixels.
#[derive(Copy, Clone, Debug, PartialEq, Eq, Hash, Structural)]
pub struct PhysicalPosition {
    pub x: i32,
    pub y: i32,
}

impl PhysicalPosition {
    pub fn new(x: i32, y: i32) -> (p: Self)
        ensures
            p.x == x,
            p.y == y,
    {
        PhysicalPosition { x, y }
    }
}

/// A size in physical pixels.
#[derive(Copy, Clone, Debug, PartialEq, Eq, Hash, Structural)]
pub struct PhysicalSize {
    pub width: u32,
    pub height: u32,
}

impl PhysicalSize {
    pub fn new(width: u32, height: u32) -> (s: Self)
        ensures
            s.width == width,
            s.height == height,
    {
        PhysicalSize { width, height }
    }
}

/// A rectangle in screen coordinates, given by its edges.
#[derive(Copy, Clone, Debug, PartialEq, Eq, Hash, Structural)]
pub struct Rect {
    pub left: i32,
    pub top: i32,
    pub right: i32,
    pub bottom: i32,
}

/// The value of `v` read as a signed 32-bit integer, as a native call takes
/// it: unchanged up to `i32::MAX`, and 2^32 less above.
pub open spec fn wrap_to_i32(v: u32) -> int {
    if v <= i32::MAX {
        v as int
    } else {
        v - 0x1_0000_0000
    }
}

/// Reads an unsigned 32-bit value as a signed one, bit for bit.
pub fn wrapping_i32(v: u32) -> (r: i32)
    ensures
        r == wrap_to_i32(v),
{
    if v <= 0x7FFF_FFFF {
        v as i32
    } else {
        ((v - 0x8000_0000) as i32) + i32::MIN
    }
}

/// The native window behind a handle that the windowing library gave out.
#[derive(Copy, Clone, Debug, PartialEq, Eq, Hash, Structural)]
pub enum RawWindowHandle {
    /// A Win32 window, by its `HWND`.
    Win32 { hwnd: isize },
    /// An AppKit view, by the address of its `NSView`.
    AppKit { ns_view: usize },
    /// A window of another windowing system.
    Other,
}

} // verus!
