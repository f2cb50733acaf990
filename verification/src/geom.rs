//! Screen-space geometry in fixed point: positions, vectors and rects whose
//! coordinates are `i64` milli-pixels (see [`crate::fixed::SCALE`]).

use vstd::prelude::*;

use crate::fixed::coord_in_range;

verus! {

/// A position in screen space, in milli-pixels.
#[derive(Clone, Copy, Debug, PartialEq, Eq, Structural)]
pub struct Pos2 {
    pub x: i64,
    pub y: i64,
}

/// A displacement in screen space, in milli-pixels.
#[derive(Clone, Copy, Debug, PartialEq, Eq, Structural)]
pub struct Vec2 {
    pub x: i64,
    pub y: i64,
}

/// An axis-aligned rect in screen space, held as origin and size.
#[derive(Clone, Copy, Debug, PartialEq, Eq, Structural)]
pub struct Rect {
    pub min: Pos2,
    pub size: Vec2,
}

impl Pos2 {
    pub fn new(x: i64, y: i64) -> (r: Pos2)
        ensures
            r.x == x && r.y == y,
    {
        Pos2 { x, y }
    }
}

impl Vec2 {
    pub fn new(x: i64, y: i64) -> (r: Vec2)
        ensures
            r.x == x && r.y == y,
    {
        Vec2 { x, y }
    }
}

impl Rect {
    /// True when every coordinate of the rect is in the accepted range and
    /// both extents are positive.
    pub open spec fn wf(self) -> bool {
        coord_in_range(self.min.x) && coord_in_range(self.min.y) && coord_in_range(self.size.x)
            && coord_in_range(self.size.y) && self.size.x >= 1 && self.size.y >= 1
    }

    /// True when `p` lies inside the rect, edges included.
    pub open spec fn contains_spec(self, p: Pos2) -> bool {
        self.min.x <= p.x <= self.min.x + self.size.x && self.min.y <= p.y <= self.min.y
            + self.size.y
    }

    pub fn from_min_size(min: Pos2, size: Vec2) -> (r: Rect)
        ensures
            r.min == min && r.size == size,
    {
        Rect { min, size }
    }

    /// Whether `p` lies inside the rect, edges included.
    pub fn contains(&self, p: Pos2) -> (r: bool)
        requires
            coord_in_range(self.min.x),
            coord_in_range(self.min.y),
            coord_in_range(self.size.x),
            coord_in_range(self.size.y),
        ensures
            r == self.contains_spec(p),
    {
        self.min.x <= p.x && p.x <= self.min.x + self.size.x && self.min.y <= p.y && p.y
            <= self.min.y + self.size.y
    }

    /// The largest rect contained in both arguments. When the two rects do
    /// not overlap, one of the result's extents is zero or negative.
    pub fn intersect(&self, other: &Rect) -> (r: Rect)
        requires
            coord_in_range(self.min.x),
            coord_in_range(self.min.y),
            coord_in_range(self.size.x),
            coord_in_range(self.size.y),
            coord_in_range(other.min.x),
            coord_in_range(other.min.y),
            coord_in_range(other.size.x),
            coord_in_range(other.size.y),
        ensures
            r.min.x == if self.min.x >= other.min.x {
                self.min.x as int
            } else {
                other.min.x as int
            },
            r.min.y == if self.min.y >= other.min.y {
                self.min.y as int
            } else {
                other.min.y as int
            },
            r.min.x + r.size.x == if self.min.x + self.size.x <= other.min.x + other.size.x {
                self.min.x + self.size.x
            } else {
                other.min.x + other.size.x
            },
            r.min.y + r.size.y == if self.min.y + self.size.y <= other.min.y + other.size.y {
                self.min.y + self.size.y
            } else {
                other.min.y + other.size.y
            },
    {
        let min_x = if self.min.x >= other.min.x {
            self.min.x
        } else {
            other.min.x
        };
        let min_y = if self.min.y >= other.min.y {
            self.min.y
        } else {
            other.min.y
        };
        let sx = self.min.x + self.size.x;
        let ox = other.min.x + other.size.x;
        let max_x = if sx <= ox {
            sx
        } else {
            ox
        };
        let sy = self.min.y + self.size.y;
        let oy = other.min.y + other.size.y;
        let max_y = if sy <= oy {
            sy
        } else {
            oy
        };
        Rect { min: Pos2 { x: min_x, y: min_y }, size: Vec2 { x: max_x - min_x, y: max_y - min_y } }
    }
}

} // verus!
