//! Points and rectangles of a window.

use vstd::prelude::*;

verus! {

/// A point of the strip's window, in pixels from its top left corner.
#[derive(Clone, Copy, Debug, PartialEq, Eq, Structural)]
pub struct Point {
    pub x: i32,
    pub y: i32,
}

/// A rectangle of the strip's window. It holds the points from `left` up to
/// but not including `right`, and from `top` up to but not including `bottom`.
#[derive(Clone, Copy, Debug, PartialEq, Eq, Structural)]
pub struct Rect {
    pub left: i32,
    pub top: i32,
    pub right: i32,
    pub bottom: i32,
}

impl Rect {
    /// Whether the point `(x, y)` lies in the rectangle.
    pub open spec fn contains(self, x: int, y: int) -> bool {
        self.left <= x < self.right && self.top <= y < self.bottom
    }

    /// Whether the two rectangles have a point in common.
    pub open spec fn intersects(self, other: Rect) -> bool {
        exists|x: int, y: int| #[trigger] self.contains(x, y) && other.contains(x, y)
    }

    /// Whether the point `(x, y)` lies in the rectangle.
    pub fn contains_point(&self, x: i32, y: i32) -> (inside: bool)
        ensures
            inside == self.contains(x as int, y as int),
    {
        self.left <= x && x < self.right && self.top <= y && y < self.bottom
    }

    /// Whether the two rectangles have a point in common.
    pub fn intersects_rect(&self, other: &Rect) -> (meet: bool)
        ensures
            meet == self.intersects(*other),
    {
        let left = if self.left > other.left { self.left } else { other.left };
        let top = if self.top > other.top { self.top } else { other.top };
        let right = if self.right < other.right { self.right } else { other.right };
        let bottom = if self.bottom < other.bottom { self.bottom } else { other.bottom };
        let meet = left < right && top < bottom;
        proof {
            if meet {
                assert(self.contains(left as int, top as int) && other.contains(
                    left as int,
                    top as int,
                ));
            }
        }
        meet
    }
}

} // verus!
