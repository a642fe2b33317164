//! Plain 2D geometry over fixed-point integer coordinates: vectors,
//! axis-aligned rectangles, and the point/circle containment tests the
//! collision resolver builds on.

use vstd::prelude::*;

verus! {

/// A 2D vector with coordinates in micro-units. The vertical axis grows
/// downward, as in screen space.
#[derive(Clone, Copy, Debug, PartialEq, Eq, Structural)]
pub struct Vec2 {
    pub x: i64,
    pub y: i64,
}

impl Vec2 {
    pub fn new(x: i64, y: i64) -> (v: Vec2)
        ensures
            v.x == x,
            v.y == y,
    {
        Vec2 { x, y }
    }

    pub fn zero() -> (v: Vec2)
        ensures
            v.x == 0,
            v.y == 0,
    {
        Vec2 { x: 0, y: 0 }
    }
}

/// An axis-aligned rectangle: `(x, y)` is its top-left corner.
#[derive(Clone, Copy, Debug, PartialEq, Eq, Structural)]
pub struct Rect {
    pub x: i64,
    pub y: i64,
    pub width: i64,
    pub height: i64,
}

impl Rect {
    pub fn new(x: i64, y: i64, width: i64, height: i64) -> (r: Rect)
        ensures
            r.x == x,
            r.y == y,
            r.width == width,
            r.height == height,
    {
        Rect { x, y, width, height }
    }
}

/// Whether `(px, py)` lies inside the rectangle, edges included.
pub open spec fn point_in_rect(px: int, py: int, r: Rect) -> bool {
    r.x <= px <= r.x + r.width && r.y <= py <= r.y + r.height
}

/// Checks if a 2D point is within the bounds of a rectangle.
pub fn check_collision_point_rect(point: &Vec2, rect: &Rect) -> (hit: bool)
    requires
        0 <= rect.width,
        0 <= rect.height,
        rect.x + rect.width <= i64::MAX,
        rect.y + rect.height <= i64::MAX,
    ensures
        hit == point_in_rect(point.x as int, point.y as int, *rect),
{
    let in_x = point.x >= rect.x && point.x <= rect.x + rect.width;
    let in_y = point.y >= rect.y && point.y <= rect.y + rect.height;
    in_x && in_y
}

} // verus!
