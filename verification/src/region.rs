//! Rectangular regions flagged by the forgery detector.

use vstd::prelude::*;

verus! {

/// A pixel position, `x` to the right and `y` downwards.
#[derive(Clone, Copy, Debug, PartialEq, Eq, Structural)]
pub struct Point {
    pub x: u32,
    pub y: u32,
}

/// An axis-aligned rectangle, both corners inclusive.
#[derive(Clone, Copy, Debug, PartialEq, Eq, Structural)]
pub struct Region {
    pub start: Point,
    pub end: Point,
}

impl Region {
    /// The detector only reports rectangles whose corners are ordered
    /// component-wise.
    pub open spec fn wf(self) -> bool {
        self.start.x <= self.end.x && self.start.y <= self.end.y
    }

    /// The whole rectangle lies inside an image of the given dimensions.
    pub open spec fn in_bounds(self, width: int, height: int) -> bool {
        self.wf() && self.end.x < width && self.end.y < height
    }

    /// `(x, y)` lies on the rectangle's outline: its top or bottom row, or
    /// its left or right column, corners included.
    pub open spec fn on_border(self, x: int, y: int) -> bool {
        self.start.x <= x <= self.end.x && self.start.y <= y <= self.end.y
        && (x == self.start.x || x == self.end.x || y == self.start.y || y == self.end.y)
    }

    /// `(x, y)` lies strictly inside the rectangle.
    pub open spec fn strictly_inside(self, x: int, y: int) -> bool {
        self.start.x < x < self.end.x && self.start.y < y < self.end.y
    }

    pub fn new(x1: u32, y1: u32, x2: u32, y2: u32) -> (r: Region)
        ensures
            r.start.x == x1 && r.start.y == y1 && r.end.x == x2 && r.end.y == y2,
    {
        Region { start: Point { x: x1, y: y1 }, end: Point { x: x2, y: y2 } }
    }
}

/// Whether some region of the sequence has `(x, y)` on its outline.
pub open spec fn any_border(regions: Seq<Region>, x: int, y: int) -> bool {
    exists|i: int| 0 <= i < regions.len() && #[trigger] regions[i].on_border(x, y)
}

/// Every region of the sequence fits inside an image of the given dimensions.
pub open spec fn all_in_bounds(regions: Seq<Region>, width: int, height: int) -> bool {
    forall|i: int| 0 <= i < regions.len() ==> #[trigger] regions[i].in_bounds(width, height)
}

} // verus!
