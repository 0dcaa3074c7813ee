//! Pixel sizes reported by a window and the render-target size they call for.

use vstd::prelude::*;

verus! {

/// Value held by a size cell before the window has reported any size.
pub const UNSET_DIMENSION: i32 = -1;

/// Width and height in pixels.
#[derive(Debug, Clone, Copy, PartialEq, Eq, Structural)]
pub struct Size {
    pub width: u32,
    pub height: u32,
}

impl Size {
    /// Both dimensions are at least one pixel: a render target can be allocated at this size.
    pub open spec fn is_allocatable(self) -> bool {
        self.width >= 1 && self.height >= 1
    }

    pub fn new(width: u32, height: u32) -> (r: Size)
        ensures
            r == (Size { width, height }),
    {
        Size { width, height }
    }
}

/// A reported dimension raised to at least one pixel.
pub open spec fn clamped(v: u32) -> u32 {
    if v == 0 {
        1
    } else {
        v
    }
}

/// The render-target size that a pair of reported dimensions calls for: `None` when
/// either dimension is negative (the sentinel, or no pixel count at all), otherwise
/// both dimensions with zero raised to one.
pub open spec fn requested_size(width: i32, height: i32) -> Option<Size> {
    if width < 0 || height < 0 {
        None
    } else {
        Some(Size { width: clamped(width as u32), height: clamped(height as u32) })
    }
}

/// Raises a dimension to at least one pixel.
pub fn clamp_dimension(v: u32) -> (r: u32)
    ensures
        r == clamped(v),
{
    if v == 0 {
        1
    } else {
        v
    }
}

/// Converts the two values read from a window's size cells into the size its render
/// target must have, or `None` when the window has not reported a usable size.
pub fn size_from_report(width: i32, height: i32) -> (r: Option<Size>)
    ensures
        r == requested_size(width, height),
        r matches Some(s) ==> s.is_allocatable(),
{
    if width < 0 || height < 0 {
        None
    } else {
        Some(Size { width: clamp_dimension(width as u32), height: clamp_dimension(height as u32) })
    }
}

} // verus!
