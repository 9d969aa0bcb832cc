//! Rectangles on the root window, in pixels.

use vstd::prelude::*;

verus! {

/// A rectangle: the position of its upper left corner relative to the root
/// window, and its size.
#[derive(Debug, Clone, Copy, PartialEq, Eq, Structural)]
pub struct Quad {
    pub x: u32,
    pub y: u32,
    pub w: u32,
    pub h: u32,
}

impl Quad {
    /// Whether the pixel at (`x`, `y`) lies in the rectangle.
    pub open spec fn holds(self, x: int, y: int) -> bool {
        self.x <= x < self.x + self.w && self.y <= y < self.y + self.h
    }

    /// The rectangle at the origin with no extent.
    pub fn default() -> (q: Quad)
        ensures
            q == (Quad { x: 0, y: 0, w: 0, h: 0 }),
    {
        Quad { x: 0, y: 0, w: 0, h: 0 }
    }

    /// The rectangle of the given height and width at the origin.
    pub fn from_size(h: u32, w: u32) -> (q: Quad)
        ensures
            q == (Quad { x: 0, y: 0, w, h }),
    {
        Quad { x: 0, y: 0, w, h }
    }

    /// The rectangle with no extent at the given position.
    pub fn from_coords(x: u32, y: u32) -> (q: Quad)
        ensures
            q == (Quad { x, y, w: 0, h: 0 }),
    {
        Quad { x, y, w: 0, h: 0 }
    }
}

} // verus!
