//! Screen geometry in integer logical units: points, sizes, and axis-aligned
//! rectangles with half-open containment, the coordinate model the container
//! hit-tests against.

use vstd::prelude::*;

verus! {

/// A position in logical screen coordinates.
#[derive(Clone, Copy, Debug, PartialEq, Eq, Structural)]
pub struct Point {
    pub x: i64,
    pub y: i64,
}

impl Point {
    pub fn new(x: i64, y: i64) -> (p: Point)
        ensures
            p == (Point { x, y }),
    {
        Point { x, y }
    }
}

/// An extent in logical units. A well-formed size is nonnegative in both
/// dimensions.
#[derive(Clone, Copy, Debug, PartialEq, Eq, Structural)]
pub struct Size {
    pub width: i64,
    pub height: i64,
}

impl Size {
    pub open spec fn wf(self) -> bool {
        0 <= self.width && 0 <= self.height
    }

    pub fn new(width: i64, height: i64) -> (s: Size)
        ensures
            s == (Size { width, height }),
    {
        Size { width, height }
    }
}

/// An axis-aligned rectangle stored by its two corners. A well-formed
/// rectangle has `x0 <= x1` and `y0 <= y1`.
#[derive(Clone, Copy, Debug, PartialEq, Eq, Structural)]
pub struct Rect {
    pub x0: i64,
    pub y0: i64,
    pub x1: i64,
    pub y1: i64,
}

impl Rect {
    pub open spec fn wf(self) -> bool {
        self.x0 <= self.x1 && self.y0 <= self.y1
    }

    pub open spec fn width(self) -> int {
        self.x1 - self.x0
    }

    pub open spec fn height(self) -> int {
        self.y1 - self.y0
    }

    pub open spec fn origin(self) -> Point {
        Point { x: self.x0, y: self.y0 }
    }

    /// Half-open containment: the minimum edges are inside, the maximum
    /// edges are not.
    pub open spec fn spec_contains(self, p: Point) -> bool {
        self.x0 <= p.x < self.x1 && self.y0 <= p.y < self.y1
    }

    /// Hit test of a point against this rectangle.
    pub fn contains(&self, p: Point) -> (r: bool)
        ensures
            r == self.spec_contains(p),
    {
        self.x0 <= p.x && p.x < self.x1 && self.y0 <= p.y && p.y < self.y1
    }

    /// The rectangle with corner `origin` and extent `size`.
    pub fn from_origin_size(origin: Point, size: Size) -> (r: Rect)
        requires
            size.wf(),
            origin.x + size.width <= i64::MAX,
            origin.y + size.height <= i64::MAX,
        ensures
            r.x0 == origin.x,
            r.y0 == origin.y,
            r.x1 == origin.x + size.width,
            r.y1 == origin.y + size.height,
            r.origin() == origin,
            r.width() == size.width,
            r.height() == size.height,
            r.wf(),
    {
        Rect {
            x0: origin.x,
            y0: origin.y,
            x1: origin.x + size.width,
            y1: origin.y + size.height,
        }
    }
}

} // verus!
