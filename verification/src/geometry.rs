//! Screen geometry: points and axis-aligned rectangles with pixel
//! coordinates.

use vstd::prelude::*;

verus! {

/// A point on the screen, in pixels.
#[derive(Clone, Copy, PartialEq, Eq, Structural, Debug)]
pub struct Point {
    pub x: i16,
    pub y: i16,
}

impl Point {
    pub fn new(x: i16, y: i16) -> (r: Point)
        ensures
            r == (Point { x, y }),
    {
        Point { x, y }
    }

    pub fn zero() -> (r: Point)
        ensures
            r == (Point { x: 0i16, y: 0i16 }),
    {
        Point { x: 0, y: 0 }
    }
}

/// An axis-aligned rectangle given by its top-left corner `(x0, y0)` and its
/// bottom-right corner `(x1, y1)`; the right and bottom edges are exclusive.
#[derive(Clone, Copy, PartialEq, Eq, Structural, Debug)]
pub struct Rect {
    pub x0: i16,
    pub y0: i16,
    pub x1: i16,
    pub y1: i16,
}

impl Rect {
    pub open spec fn spec_width(self) -> int {
        self.x1 - self.x0
    }

    pub open spec fn spec_height(self) -> int {
        self.y1 - self.y0
    }

    /// Whether `p` lies inside the rectangle (edges at `x1`/`y1` excluded).
    pub open spec fn spec_contains(self, p: Point) -> bool {
        &&& self.x0 <= p.x < self.x1
        &&& self.y0 <= p.y < self.y1
    }

    pub fn new(p0: Point, p1: Point) -> (r: Rect)
        ensures
            r == (Rect { x0: p0.x, y0: p0.y, x1: p1.x, y1: p1.y }),
    {
        Rect { x0: p0.x, y0: p0.y, x1: p1.x, y1: p1.y }
    }

    pub fn zero() -> (r: Rect)
        ensures
            r == (Rect { x0: 0i16, y0: 0i16, x1: 0i16, y1: 0i16 }),
    {
        Rect { x0: 0, y0: 0, x1: 0, y1: 0 }
    }

    pub fn from_top_left_and_size(p: Point, w: i16, h: i16) -> (r: Rect)
        requires
            i16::MIN <= p.x + w <= i16::MAX,
            i16::MIN <= p.y + h <= i16::MAX,
        ensures
            r == (Rect { x0: p.x, y0: p.y, x1: (p.x + w) as i16, y1: (p.y + h) as i16 }),
    {
        Rect { x0: p.x, y0: p.y, x1: p.x + w, y1: p.y + h }
    }

    pub fn width(&self) -> (r: i16)
        requires
            i16::MIN <= self.x1 - self.x0 <= i16::MAX,
        ensures
            r == self.spec_width(),
    {
        self.x1 - self.x0
    }

    pub fn height(&self) -> (r: i16)
        requires
            i16::MIN <= self.y1 - self.y0 <= i16::MAX,
        ensures
            r == self.spec_height(),
    {
        self.y1 - self.y0
    }

    /// The centre point, rounding towards the top-left corner.
    pub fn center(&self) -> (r: Point)
        requires
            0 <= self.x0 + self.x1 <= i16::MAX,
            0 <= self.y0 + self.y1 <= i16::MAX,
        ensures
            r.x == (self.x0 + self.x1) / 2,
            r.y == (self.y0 + self.y1) / 2,
    {
        Point { x: (self.x0 + self.x1) / 2, y: (self.y0 + self.y1) / 2 }
    }

    pub fn contains(&self, p: Point) -> (r: bool)
        ensures
            r == self.spec_contains(p),
    {
        self.x0 <= p.x && p.x < self.x1 && self.y0 <= p.y && p.y < self.y1
    }
}

} // verus!
