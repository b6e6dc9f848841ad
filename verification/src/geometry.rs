//! Pixel-space values: positions, displacements, extents and rectangles.
//!
//! Pixel coordinates are 128-bit integers, wide enough that every cell of the
//! grid, whatever its `isize` column and row, has a pixel position.

use vstd::prelude::*;

verus! {

/// A position in pixel space.
#[derive(Clone, Copy, Debug, PartialEq, Eq, Structural)]
pub struct Point {
    pub x: i128,
    pub y: i128,
}

impl Point {
    pub fn new(x: i128, y: i128) -> (p: Self)
        ensures
            p.x == x,
            p.y == y,
    {
        Point { x, y }
    }
}

/// A displacement in pixel space.
#[derive(Clone, Copy, Debug, PartialEq, Eq, Structural)]
pub struct Vec2 {
    pub x: i128,
    pub y: i128,
}

impl Vec2 {
    pub fn new(x: i128, y: i128) -> (v: Self)
        ensures
            v.x == x,
            v.y == y,
    {
        Vec2 { x, y }
    }
}

/// The extent of a box in pixels.
#[derive(Clone, Copy, Debug, PartialEq, Eq, Structural)]
pub struct Size {
    pub width: u32,
    pub height: u32,
}

impl Size {
    pub fn new(width: u32, height: u32) -> (s: Self)
        ensures
            s.width == width,
            s.height == height,
    {
        Size { width, height }
    }

    /// The number of pixels the box covers.
    pub open spec fn area(self) -> int {
        self.width * self.height
    }
}

/// An axis-aligned rectangle, from `(x0, y0)` to `(x1, y1)`.
///
/// A point lies in it when it is at or past the first corner and before the
/// second one, on both axes.
#[derive(Clone, Copy, Debug, PartialEq, Eq, Structural)]
pub struct Rect {
    pub x0: i128,
    pub y0: i128,
    pub x1: i128,
    pub y1: i128,
}

impl Rect {
    pub fn new(x0: i128, y0: i128, x1: i128, y1: i128) -> (r: Self)
        ensures
            r == (Rect { x0, y0, x1, y1 }),
    {
        Rect { x0, y0, x1, y1 }
    }

    pub open spec fn width(self) -> int {
        self.x1 - self.x0
    }

    pub open spec fn height(self) -> int {
        self.y1 - self.y0
    }

    pub open spec fn area(self) -> int {
        self.width() * self.height()
    }

    pub open spec fn spec_origin(&self) -> Point {
        Point { x: self.x0, y: self.y0 }
    }

    /// The corner with the smallest coordinates.
    #[verifier::when_used_as_spec(spec_origin)]
    pub fn origin(&self) -> (p: Point)
        ensures
            p == self.spec_origin(),
    {
        Point { x: self.x0, y: self.y0 }
    }

    pub open spec fn spec_contains(&self, p: Point) -> bool {
        self.x0 <= p.x < self.x1 && self.y0 <= p.y < self.y1
    }

    /// Whether `p` lies in the rectangle; the far edges are outside.
    #[verifier::when_used_as_spec(spec_contains)]
    pub fn contains(&self, p: Point) -> (inside: bool)
        ensures
            inside == self.spec_contains(p),
    {
        p.x >= self.x0 && p.x < self.x1 && p.y >= self.y0 && p.y < self.y1
    }

    pub open spec fn spec_union(&self, other: Rect) -> Rect {
        Rect {
            x0: if self.x0 <= other.x0 { self.x0 } else { other.x0 },
            y0: if self.y0 <= other.y0 { self.y0 } else { other.y0 },
            x1: if self.x1 >= other.x1 { self.x1 } else { other.x1 },
            y1: if self.y1 >= other.y1 { self.y1 } else { other.y1 },
        }
    }

    /// The smallest rectangle that encloses both.
    #[verifier::when_used_as_spec(spec_union)]
    pub fn union(&self, other: Rect) -> (r: Rect)
        ensures
            r == self.spec_union(other),
    {
        Rect {
            x0: if self.x0 <= other.x0 { self.x0 } else { other.x0 },
            y0: if self.y0 <= other.y0 { self.y0 } else { other.y0 },
            x1: if self.x1 >= other.x1 { self.x1 } else { other.x1 },
            y1: if self.y1 >= other.y1 { self.y1 } else { other.y1 },
        }
    }
}

} // verus!
