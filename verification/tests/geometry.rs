//! Geometry and collision tests, including a brute-force check of the
//! clamped-distance circle/rectangle test against direct squared-distance
//! evaluation.

use wizard_duel::geom::{check_collision_point_rect, Rect, Vec2};
use wizard_duel::utils::{check_collision_circle_rec, random_point};

#[test]
fn point_in_rect_inside_and_edges() {
    let rect = Rect::new(100, 200, 50, 80);
    assert!(check_collision_point_rect(&Vec2::new(120, 240), &rect));
    assert!(check_collision_point_rect(&Vec2::new(100, 200), &rect));
    assert!(check_collision_point_rect(&Vec2::new(150, 280), &rect));
    assert!(!check_collision_point_rect(&Vec2::new(99, 240), &rect));
    assert!(!check_collision_point_rect(&Vec2::new(151, 240), &rect));
    assert!(!check_collision_point_rect(&Vec2::new(120, 281), &rect));
}

#[test]
fn circle_rect_center_inside_hits() {
    let rect = Rect::new(0, 0, 100, 100);
    assert!(check_collision_circle_rec(Vec2::new(50, 50), 1, rect));
}

#[test]
fn circle_rect_exact_threshold() {
    let rect = Rect::new(0, 0, 100, 100);
    // circle 30 to the right of the edge: touches at radius 30, not at 29
    assert!(check_collision_circle_rec(Vec2::new(130, 50), 30, rect));
    assert!(!check_collision_circle_rec(Vec2::new(130, 50), 29, rect));
    // corner at squared distance 3^2 + 4^2 = 5^2
    assert!(check_collision_circle_rec(Vec2::new(103, -4), 5, rect));
    assert!(!check_collision_circle_rec(Vec2::new(103, -4), 4, rect));
}

/// Exact reference: the circle meets the rectangle when the squared
/// distance from the centre to the per-axis closest point is within the
/// squared radius. Computed here from scratch with saturating arithmetic.
fn reference_hit(cx: i64, cy: i64, r: i64, rect: &Rect) -> bool {
    let px = cx.clamp(rect.x, rect.x + rect.width);
    let py = cy.clamp(rect.y, rect.y + rect.height);
    let dx = (cx - px) as i128;
    let dy = (cy - py) as i128;
    dx * dx + dy * dy <= (r as i128) * (r as i128)
}

#[test]
fn circle_rect_matches_reference_on_grid() {
    let rect = Rect::new(-20, -10, 40, 25);
    for cx in -40..40 {
        for cy in -40..40 {
            for r in [0, 1, 3, 7, 15] {
                let got = check_collision_circle_rec(Vec2::new(cx, cy), r, rect);
                let want = reference_hit(cx, cy, r, &rect);
                assert_eq!(got, want, "centre ({cx},{cy}) radius {r}");
            }
        }
    }
}

#[test]
fn random_point_stays_in_bounds() {
    for _ in 0..200 {
        let v = random_point(37, 91);
        assert!(0 <= v.x && v.x < 37);
        assert!(0 <= v.y && v.y < 91);
    }
}
