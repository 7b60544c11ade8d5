//! Whole-pixel screen geometry for the pane layout.
//!
//! Coordinates are whole pixels. A rectangle is kept by its four edges, so
//! every operation here is total: a rectangle whose right edge lies left of
//! its left edge (or whose bottom lies above its top) is simply empty.

use vstd::prelude::*;

verus! {

/// The direction along which the children of a split are laid out.
#[derive(Debug, Clone, Copy, PartialEq, Eq, Structural)]
pub enum Axis {
    Horizontal,
    Vertical,
}

/// A position on screen, in whole pixels.
#[derive(Debug, Clone, Copy, PartialEq, Eq, Structural)]
pub struct Point {
    pub x: i32,
    pub y: i32,
}

impl Point {
    pub fn new(x: i32, y: i32) -> (p: Point)
        ensures
            p == (Point { x, y }),
    {
        Point { x, y }
    }

    /// The coordinate of this point that runs along `axis`.
    pub open spec fn spec_along(&self, axis: Axis) -> i32 {
        match axis {
            Axis::Horizontal => self.x,
            Axis::Vertical => self.y,
        }
    }

    /// The coordinate of this point that runs along `axis`.
    #[verifier::when_used_as_spec(spec_along)]
    pub fn along(&self, axis: Axis) -> (c: i32)
        ensures
            c == self.spec_along(axis),
    {
        match axis {
            Axis::Horizontal => self.x,
            Axis::Vertical => self.y,
        }
    }
}

/// A rectangle on screen: the pixels `(x, y)` with `left <= x < right` and
/// `top <= y < bottom`.
#[derive(Debug, Clone, Copy, PartialEq, Eq, Structural)]
pub struct Bounds {
    pub left: i32,
    pub top: i32,
    pub right: i32,
    pub bottom: i32,
}

impl Bounds {
    pub fn new(left: i32, top: i32, right: i32, bottom: i32) -> (b: Bounds)
        ensures
            b == (Bounds { left, top, right, bottom }),
    {
        Bounds { left, top, right, bottom }
    }

    /// Whether the pixel at `point` lies inside this rectangle.
    pub open spec fn spec_contains(&self, point: Point) -> bool {
        &&& self.left <= point.x < self.right
        &&& self.top <= point.y < self.bottom
    }

    /// Whether the pixel at `point` lies inside this rectangle.
    #[verifier::when_used_as_spec(spec_contains)]
    pub fn contains(&self, point: Point) -> (inside: bool)
        ensures
            inside == self.spec_contains(point),
    {
        self.left <= point.x && point.x < self.right && self.top <= point.y && point.y
            < self.bottom
    }

    /// The coordinate at which this rectangle begins along `axis`.
    pub open spec fn start(&self, axis: Axis) -> int {
        match axis {
            Axis::Horizontal => self.left as int,
            Axis::Vertical => self.top as int,
        }
    }

    /// The number of pixels this rectangle spans along `axis`; zero for an
    /// empty rectangle.
    pub open spec fn spec_extent(&self, axis: Axis) -> nat {
        match axis {
            Axis::Horizontal => if self.left <= self.right {
                (self.right - self.left) as nat
            } else {
                0
            },
            Axis::Vertical => if self.top <= self.bottom {
                (self.bottom - self.top) as nat
            } else {
                0
            },
        }
    }

    /// The number of pixels this rectangle spans along `axis`; zero for an
    /// empty rectangle.
    pub fn extent(&self, axis: Axis) -> (e: u32)
        ensures
            e == self.spec_extent(axis),
    {
        match axis {
            Axis::Horizontal => if self.left <= self.right {
                (self.right as i64 - self.left as i64) as u32
            } else {
                0
            },
            Axis::Vertical => if self.top <= self.bottom {
                (self.bottom as i64 - self.top as i64) as u32
            } else {
                0
            },
        }
    }

    /// The part of this rectangle that lies between the offsets `from` and
    /// `to` along `axis`, measured from where the rectangle begins. Across
    /// the axis the part spans what the whole rectangle spans.
    pub open spec fn spec_slice(&self, axis: Axis, from: int, to: int) -> Bounds {
        match axis {
            Axis::Horizontal => Bounds {
                left: (self.left + from) as i32,
                top: self.top,
                right: (self.left + to) as i32,
                bottom: self.bottom,
            },
            Axis::Vertical => Bounds {
                left: self.left,
                top: (self.top + from) as i32,
                right: self.right,
                bottom: (self.top + to) as i32,
            },
        }
    }

    /// The part of this rectangle that lies between the offsets `from` and
    /// `to` along `axis`, measured from where the rectangle begins.
    pub fn slice(&self, axis: Axis, from: u32, to: u32) -> (part: Bounds)
        requires
            from <= to <= self.spec_extent(axis),
        ensures
            part == self.spec_slice(axis, from as int, to as int),
            part.spec_extent(axis) == to - from,
            part.start(axis) == self.start(axis) + from,
    {
        match axis {
            Axis::Horizontal => Bounds {
                left: (self.left as i64 + from as i64) as i32,
                top: self.top,
                right: (self.left as i64 + to as i64) as i32,
                bottom: self.bottom,
            },
            Axis::Vertical => Bounds {
                left: self.left,
                top: (self.top as i64 + from as i64) as i32,
                right: self.right,
                bottom: (self.top as i64 + to as i64) as i32,
            },
        }
    }
}

/// A point lies in a slice of a rectangle exactly when it lies in the
/// rectangle and its coordinate along the axis falls between the two offsets.
pub proof fn lemma_slice_contains(b: Bounds, axis: Axis, from: int, to: int, p: Point)
    requires
        0 <= from <= to <= b.spec_extent(axis),
    ensures
        b.spec_slice(axis, from, to).spec_contains(p) <==> (b.spec_contains(p) && b.start(axis)
            + from <= p.spec_along(axis) < b.start(axis) + to),
{
}

} // verus!
