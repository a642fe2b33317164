//! Collision helpers shared by the match scene, and a random screen-point
//! helper for presentation code.
//!
//! The circle/rectangle test is the projectile hit test: the circle centre is
//! clamped onto the rectangle on each axis independently and the squared
//! distance to the clamped point is compared against the squared radius.
//! `lemma_circle_rec_hit_exact` proves this equals exact geometric
//! circle-rectangle intersection.

use vstd::prelude::*;
use rand::Rng;
use crate::geom::{Rect, Vec2, point_in_rect};

verus! {

/// Largest radius the circle/rectangle test accepts; keeps the squared
/// distances within `i64`.
pub const RADIUS_LIMIT: i64 = 2_000_000_000;

/// Largest coordinate magnitude the circle/rectangle test accepts; keeps the
/// per-axis differences within `i64`.
pub const COORD_LIMIT: i64 = 2_000_000_000_000_000_000;

/// `v` clamped into `[lo, hi]`.
pub open spec fn clamp_int(v: int, lo: int, hi: int) -> int
    recommends
        lo <= hi,
{
    if v < lo {
        lo
    } else if v > hi {
        hi
    } else {
        v
    }
}

/// The square of `a`.
pub open spec fn sq(a: int) -> int {
    a * a
}

/// The clamped-distance circle/rectangle test: the circle of centre
/// `(cx, cy)` and radius `radius` touches `rec` when the squared distance
/// from the centre to its per-axis clamp onto `rec` is at most the squared
/// radius.
pub open spec fn circle_rec_hit(cx: int, cy: int, radius: int, rec: Rect) -> bool {
    let tx = clamp_int(cx, rec.x as int, rec.x + rec.width);
    let ty = clamp_int(cy, rec.y as int, rec.y + rec.height);
    sq(cx - tx) + sq(cy - ty) <= sq(radius)
}

/// Squaring is monotone on non-negative values.
proof fn lemma_sq_monotone(a: int, b: int)
    requires
        0 <= a <= b,
    ensures
        sq(a) <= sq(b),
{
    assert(a * a <= b * b) by (nonlinear_arith)
        requires
            0 <= a <= b,
    ;
}

/// The clamp of `c` onto `[lo, hi]` is at least as close to `c` as any point
/// of `[lo, hi]`, in squared distance.
proof fn lemma_clamp_closest(c: int, lo: int, hi: int, p: int)
    requires
        lo <= p <= hi,
    ensures
        sq(c - clamp_int(c, lo, hi)) <= sq(c - p),
{
    let t = clamp_int(c, lo, hi);
    if c < lo {
        lemma_sq_monotone(lo - c, p - c);
        assert(sq(c - t) == sq(lo - c)) by (nonlinear_arith)
            requires
                t == lo,
        ;
        assert(sq(c - p) == sq(p - c)) by (nonlinear_arith);
    } else if c > hi {
        lemma_sq_monotone(c - hi, c - p);
        assert(sq(c - t) == sq(c - hi)) by (nonlinear_arith)
            requires
                t == hi,
        ;
    } else {
        assert(sq(c - t) == 0) by (nonlinear_arith)
            requires
                t == c,
        ;
        assert(sq(c - p) >= 0) by (nonlinear_arith);
    }
}

/// The clamped-distance test agrees with exact geometric circle-rectangle
/// intersection: the circle touches the rectangle exactly when some point of
/// the rectangle lies within `radius` of the centre.
pub proof fn lemma_circle_rec_hit_exact(cx: int, cy: int, radius: int, rec: Rect)
    requires
        0 <= radius,
        0 <= rec.width,
        0 <= rec.height,
    ensures
        circle_rec_hit(cx, cy, radius, rec) <==> exists|px: int, py: int|
            #[trigger] point_in_rect(px, py, rec) && sq(cx - px) + sq(cy - py) <= sq(radius),
{
    let tx = clamp_int(cx, rec.x as int, rec.x + rec.width);
    let ty = clamp_int(cy, rec.y as int, rec.y + rec.height);
    if circle_rec_hit(cx, cy, radius, rec) {
        assert(point_in_rect(tx, ty, rec) && sq(cx - tx) + sq(cy - ty) <= sq(radius));
    }
    if exists|px: int, py: int|
        #[trigger] point_in_rect(px, py, rec) && sq(cx - px) + sq(cy - py) <= sq(radius) {
        let (px, py) = choose|px: int, py: int|
            #[trigger] point_in_rect(px, py, rec) && sq(cx - px) + sq(cy - py) <= sq(radius);
        lemma_clamp_closest(cx, rec.x as int, rec.x + rec.width, px);
        lemma_clamp_closest(cy, rec.y as int, rec.y + rec.height, py);
    }
}

/// Checks if a circle (projectile) hits a rectangle (player hitbox).
pub fn check_collision_circle_rec(center: Vec2, radius: i64, rec: Rect) -> (hit: bool)
    requires
        0 <= radius <= RADIUS_LIMIT,
        0 <= rec.width,
        0 <= rec.height,
        -COORD_LIMIT <= center.x <= COORD_LIMIT,
        -COORD_LIMIT <= center.y <= COORD_LIMIT,
        -COORD_LIMIT <= rec.x,
        rec.x + rec.width <= COORD_LIMIT,
        -COORD_LIMIT <= rec.y,
        rec.y + rec.height <= COORD_LIMIT,
    ensures
        hit == circle_rec_hit(center.x as int, center.y as int, radius as int, rec),
{
    // Find the closest point of the rectangle to the circle centre.
    let test_x: i64 = if center.x < rec.x {
        rec.x
    } else if center.x > rec.x + rec.width {
        rec.x + rec.width
    } else {
        center.x
    };
    let test_y: i64 = if center.y < rec.y {
        rec.y
    } else if center.y > rec.y + rec.height {
        rec.y + rec.height
    } else {
        center.y
    };

    let dist_x: i64 = center.x - test_x;
    let dist_y: i64 = center.y - test_y;

    // A per-axis distance beyond the radius already rules the hit out, and
    // guarantees the squares below stay within `i64`.
    if dist_x > radius || dist_x < -radius || dist_y > radius || dist_y < -radius {
        proof {
            let dx = center.x - test_x;
            let dy = center.y - test_y;
            assert(sq(dx) + sq(dy) > sq(radius as int)) by (nonlinear_arith)
                requires
                    0 <= radius,
                    dx > radius || dx < -radius || dy > radius || dy < -radius,
            ;
        }
        return false;
    }
    proof {
        let dx = center.x - test_x;
        let dy = center.y - test_y;
        assert(0 <= sq(dx) <= sq(radius as int) && 0 <= sq(dy) <= sq(radius as int))
            by (nonlinear_arith)
            requires
                -radius <= dx <= radius,
                -radius <= dy <= radius,
                0 <= radius,
        ;
        assert(sq(radius as int) <= RADIUS_LIMIT * RADIUS_LIMIT) by (nonlinear_arith)
            requires
                0 <= radius <= RADIUS_LIMIT,
        ;
    }
    dist_x * dist_x + dist_y * dist_y <= radius * radius
}

/// Relies on `rand::Rng::random_range` over `0..bound`: the range is
/// non-empty because `bound` is positive, and the sample lies in it.
#[verifier::external_body]
fn random_below(bound: i64) -> (r: i64)
    requires
        1 <= bound,
    ensures
        0 <= r < bound,
{
    rand::rng().random_range(0..bound)
}

/// Generates a random point within the specified width and height.
pub fn random_point(width: i64, height: i64) -> (v: Vec2)
    requires
        1 <= width,
        1 <= height,
    ensures
        0 <= v.x < width,
        0 <= v.y < height,
{
    let x = random_below(width);
    let y = random_below(height);
    Vec2 { x, y }
}

} // verus!
