//! Points and the rectangles handed out for painting.
use vstd::prelude::*;

use crate::tile::Paint;

verus! {

/// A point, either in tile units on the grid or in pixels on the screen.
#[derive(Clone, Copy, Debug, PartialEq, Eq, Structural)]
pub struct Point {
    pub x: i64,
    pub y: i64,
}

/// An axis-aligned filled square to paint: top-left corner in pixels,
/// side in pixels, colour.
#[derive(Clone, Copy, Debug, PartialEq, Eq, Structural)]
pub struct Rect {
    pub pos: Point,
    pub size: u64,
    pub paint: Paint,
}

impl Point {
    pub fn new(x: i64, y: i64) -> (r: Point)
        ensures
            r == (Point { x, y }),
    {
        Point { x, y }
    }
}

} // verus!
