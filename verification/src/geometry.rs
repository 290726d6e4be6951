//! Integer geometry: positions and displacements on a grid of sub-pixel
//! units, and rectangles given by their four edges.
//!
//! The vertical axis points down, as on a screen: a smaller `y` is higher up.
use vstd::prelude::*;

verus! {

/// A position on the grid.
#[derive(Clone, Copy, Debug, PartialEq, Eq, Hash, Structural)]
pub struct Point {
    pub x: i32,
    pub y: i32,
}

/// The displacement that carries one grid position to another. Its
/// components are wide enough for the difference of any two positions.
#[derive(Clone, Copy, Debug, PartialEq, Eq, Hash, Structural)]
pub struct Vector {
    pub x: i64,
    pub y: i64,
}

impl Vector {
    /// The displacement that moves nothing.
    pub fn zero() -> (v: Vector)
        ensures
            v == (Vector { x: 0, y: 0 }),
    {
        Vector { x: 0, y: 0 }
    }

    /// The displacement from `from` to `to`.
    pub open spec fn spec_between(from: Point, to: Point) -> Vector {
        Vector { x: (to.x - from.x) as i64, y: (to.y - from.y) as i64 }
    }

    /// The displacement from `from` to `to`.
    #[verifier::when_used_as_spec(spec_between)]
    pub fn between(from: Point, to: Point) -> (v: Vector)
        ensures
            v == Vector::spec_between(from, to),
            v.x == to.x - from.x,
            v.y == to.y - from.y,
    {
        Vector { x: to.x as i64 - from.x as i64, y: to.y as i64 - from.y as i64 }
    }
}

/// The grid position halfway between `a` and `b`, rounded down.
pub open spec fn spec_midpoint(a: i32, b: i32) -> i32 {
    ((a + b) / 2) as i32
}

/// The grid position halfway between `a` and `b`, rounded down.
#[verifier::when_used_as_spec(spec_midpoint)]
pub fn midpoint(a: i32, b: i32) -> (m: i32)
    ensures
        m == spec_midpoint(a, b),
        2 * m <= a + b <= 2 * m + 1,
{
    let sum: i64 = a as i64 + b as i64;
    if sum >= 0 {
        (sum / 2) as i32
    } else {
        let up: i64 = (1 - sum) / 2;
        (-up) as i32
    }
}

/// The room that a list leaves free inside of its bounds, on each side.
#[derive(Clone, Copy, Debug, PartialEq, Eq, Hash, Structural)]
pub struct Padding {
    pub top: u32,
    pub right: u32,
    pub bottom: u32,
    pub left: u32,
}

impl Padding {
    /// The room on the left and on the right together.
    pub open spec fn spec_horizontal(&self) -> u64 {
        (self.left + self.right) as u64
    }

    /// The room on the left and on the right together.
    #[verifier::when_used_as_spec(spec_horizontal)]
    pub fn horizontal(&self) -> (room: u64)
        ensures
            room == self.spec_horizontal(),
            room == self.left + self.right,
    {
        self.left as u64 + self.right as u64
    }
}

/// A rectangle to fill with colour, given by its top left corner and its
/// size. It is wide enough for whatever is worked out from positions on the
/// grid, and may come out with a size below zero, which fills nothing.
#[derive(Clone, Copy, Debug, PartialEq, Eq, Hash, Structural)]
pub struct Quad {
    pub x: i64,
    pub y: i64,
    pub width: i64,
    pub height: i64,
}

/// An axis-aligned rectangle, given by its edges. It holds the positions
/// from `left` up to but not including `right`, and from `top` up to but not
/// including `bottom`; where an edge does not lie before its opposite, the
/// rectangle holds nothing.
#[derive(Clone, Copy, Debug, PartialEq, Eq, Hash, Structural)]
pub struct Rectangle {
    pub left: i32,
    pub top: i32,
    pub right: i32,
    pub bottom: i32,
}

impl Rectangle {
    /// Whether `point` lies in the rectangle. The left and top edges belong
    /// to it, the right and bottom edges do not.
    pub open spec fn spec_contains(&self, point: Point) -> bool {
        &&& self.left <= point.x < self.right
        &&& self.top <= point.y < self.bottom
    }

    /// Whether `point` lies in the rectangle.
    #[verifier::when_used_as_spec(spec_contains)]
    pub fn contains(&self, point: Point) -> (inside: bool)
        ensures
            inside == self.spec_contains(point),
    {
        self.left <= point.x && point.x < self.right && self.top <= point.y && point.y
            < self.bottom
    }

    /// Whether the pointer is over the rectangle: it has a position, and the
    /// rectangle holds it.
    pub open spec fn spec_is_under(&self, cursor: Option<Point>) -> bool {
        match cursor {
            Some(point) => self.spec_contains(point),
            None => false,
        }
    }

    /// Whether the pointer is over the rectangle.
    #[verifier::when_used_as_spec(spec_is_under)]
    pub fn is_under(&self, cursor: Option<Point>) -> (over: bool)
        ensures
            over == self.spec_is_under(cursor),
    {
        match cursor {
            Some(point) => self.contains(point),
            None => false,
        }
    }

    /// Twice the vertical coordinate of the rectangle's centre. The centre
    /// itself may lie halfway between two grid lines; its double never does.
    pub open spec fn twice_center_y(&self) -> int {
        self.top + self.bottom
    }

    /// Whether the horizontal line at `y` runs strictly above the
    /// rectangle's centre.
    pub open spec fn center_is_below(&self, y: int) -> bool {
        2 * y < self.twice_center_y()
    }

    /// Whether the horizontal line at `y` runs strictly above the
    /// rectangle's centre.
    pub fn centered_below(&self, y: i32) -> (below: bool)
        ensures
            below == self.center_is_below(y as int),
    {
        2 * (y as i64) < self.top as i64 + self.bottom as i64
    }

    /// The grid position at the rectangle's centre, each coordinate rounded
    /// down.
    pub open spec fn spec_center(&self) -> Point {
        Point { x: spec_midpoint(self.left, self.right), y: spec_midpoint(self.top, self.bottom) }
    }

    /// The grid position at the rectangle's centre, each coordinate rounded
    /// down.
    #[verifier::when_used_as_spec(spec_center)]
    pub fn center(&self) -> (c: Point)
        ensures
            c == self.spec_center(),
    {
        Point { x: midpoint(self.left, self.right), y: midpoint(self.top, self.bottom) }
    }

    /// The positions that both rectangles hold, as a rectangle, or `None`
    /// where they share none.
    pub open spec fn spec_intersection(&self, other: &Rectangle) -> Option<Rectangle> {
        let left = if self.left >= other.left { self.left } else { other.left };
        let top = if self.top >= other.top { self.top } else { other.top };
        let right = if self.right <= other.right { self.right } else { other.right };
        let bottom = if self.bottom <= other.bottom { self.bottom } else { other.bottom };
        if left < right && top < bottom {
            Some(Rectangle { left, top, right, bottom })
        } else {
            None
        }
    }

    /// The positions that both rectangles hold, as a rectangle, or `None`
    /// where they share none.
    #[verifier::when_used_as_spec(spec_intersection)]
    pub fn intersection(&self, other: &Rectangle) -> (common: Option<Rectangle>)
        ensures
            common == self.spec_intersection(other),
    {
        let left: i32 = if self.left >= other.left { self.left } else { other.left };
        let top: i32 = if self.top >= other.top { self.top } else { other.top };
        let right: i32 = if self.right <= other.right { self.right } else { other.right };
        let bottom: i32 = if self.bottom <= other.bottom { self.bottom } else { other.bottom };
        if left < right && top < bottom {
            Some(Rectangle { left, top, right, bottom })
        } else {
            None
        }
    }

    /// Whether the two rectangles share a position.
    pub open spec fn spec_intersects(&self, other: &Rectangle) -> bool {
        self.spec_intersection(other) is Some
    }

    /// Whether the two rectangles share a position.
    #[verifier::when_used_as_spec(spec_intersects)]
    pub fn intersects(&self, other: &Rectangle) -> (shared: bool)
        ensures
            shared == self.spec_intersects(other),
    {
        self.intersection(other).is_some()
    }
}

/// A position lies in the intersection of two rectangles exactly when it
/// lies in both of them.
pub proof fn lemma_intersection_holds_common_points(a: Rectangle, b: Rectangle, point: Point)
    ensures
        (a.spec_contains(point) && b.spec_contains(point)) <==> (match a.spec_intersection(&b) {
            Some(common) => common.spec_contains(point),
            None => false,
        }),
{
}

} // verus!
