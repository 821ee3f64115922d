//! Rectangles and the geometry constraints on a capture request.

use vstd::prelude::*;

verus! {

/// A rectangle on the captured surface, in pixels.  Positions are signed
/// because the wire protocol carries them as signed 16-bit values; a
/// rectangle with a negative corner is never a valid capture target.
#[derive(Clone, Copy, Debug, PartialEq, Eq, Structural)]
pub struct Rect {
    pub x: i16,
    pub y: i16,
    pub width: u16,
    pub height: u16,
}

/// Whether `r` is an acceptable capture target for a buffer (and screen)
/// of `bw` by `bh` pixels: the corner is non-negative and on the screen,
/// the extent is non-empty, and the pixel footprint fits the buffer's
/// capacity row-for-row and column-for-column.
pub open spec fn valid_capture_rect(r: Rect, bw: u16, bh: u16) -> bool {
    &&& r.x >= 0
    &&& r.y >= 0
    &&& r.width > 0
    &&& r.height > 0
    &&& r.width <= bw
    &&& r.height <= bh
    &&& r.x < bw
    &&& r.y < bh
}

impl Rect {
    /// The rectangle covering a whole surface of `width` by `height`
    /// pixels, anchored at the origin.
    pub fn full(width: u16, height: u16) -> (r: Rect)
        ensures
            r == (Rect { x: 0, y: 0, width, height }),
    {
        Rect { x: 0, y: 0, width, height }
    }

    /// Executable form of the geometry check a capture performs before
    /// anything is sent to the server.
    pub fn is_valid_for(&self, bw: u16, bh: u16) -> (r: bool)
        ensures
            r == valid_capture_rect(*self, bw, bh),
    {
        self.x >= 0 && self.y >= 0 && self.width > 0 && self.height > 0
            && self.width <= bw && self.height <= bh && (self.x as u16) < bw
            && (self.y as u16) < bh
    }
}

} // verus!
