//! Sizes and rectangles on the integer grid of a map.

use vstd::prelude::*;

verus! {

/// Size of a 2D rectangle.
#[derive(Debug, Default, Clone, Copy)]
pub struct Size {
    pub x: usize,
    pub y: usize,
}

impl Size {
    /// The size `x` by `y`.
    pub fn new(x: usize, y: usize) -> (r: Size)
        ensures
            r.x == x,
            r.y == y,
    {
        Size { x, y }
    }
}

/// Rectangle from (x0, y0) to (x1, y1).
#[derive(Debug, Default, Clone, Copy)]
pub struct Rect {
    pub x0: usize,
    pub y0: usize,
    pub x1: usize,
    pub y1: usize,
}

impl Rect {
    /// The rectangle with the given corners.
    pub fn new(x0: usize, y0: usize, x1: usize, y1: usize) -> (r: Rect)
        ensures
            r.x0 == x0,
            r.y0 == y0,
            r.x1 == x1,
            r.y1 == y1,
    {
        Rect { x0, y0, x1, y1 }
    }
}

} // verus!
