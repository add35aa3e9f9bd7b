// Classic segment-intersection cases: perpendicular crossings, endpoint
// touches, coincident overlaps, and near misses.

use narrowphase::physics::LineSegment;
use narrowphase::vec2::Vec2;

fn seg_m(x1: i32, y1: i32, x2: i32, y2: i32) -> LineSegment {
    LineSegment::new(Vec2::new(x1, y1), Vec2::new(x2, y2))
}

#[test]
fn segments_intersect() {
    // Axis lines. Perpendicular and intersecting in the middle.
    assert!(seg_m(-5, 0, 5, 0).intersects_with(&seg_m(0, 5, 0, -5)));
    // Non-perpendicular lines with one of the endpoints on the other.
    assert!(seg_m(0, 0, 2, 2).intersects_with(&seg_m(1, 1, 4, 3)));
    // Perpendicular lines, one endpoint on a line.
    assert!(seg_m(-2, 0, 0, 0).intersects_with(&seg_m(-2, -2, -2, 2)));
    // Same, but in the +,+ quadrant and no lines coincident with the origin.
    assert!(seg_m(4, 0, 4, 8).intersects_with(&seg_m(0, 4, 4, 4)));
    // Coincident lines. B is inside A.
    assert!(seg_m(0, 0, 10, 10).intersects_with(&seg_m(2, 2, 7, 7)));
    // Literally the same line.
    assert!(seg_m(6, -3, -5, -1).intersects_with(&seg_m(6, -3, -5, -1)));
}

#[test]
fn segments_do_not_intersect() {
    // Parallel, X and Y projections collide but segments do not.
    assert!(!seg_m(2, 2, 10, 10).intersects_with(&seg_m(4, 5, 8, 9)));
    // Parallel, Y projections collide. X touches at one point.
    assert!(!seg_m(0, 0, -7, 7).intersects_with(&seg_m(-7, 1, -9, 3)));
    // Parallel, segments do not overlap.
    assert!(!seg_m(0, 0, 0, 2).intersects_with(&seg_m(5, 5, 5, 7)));
    // Perpendicular, segments do not overlap.
    assert!(!seg_m(0, 0, 0, 2).intersects_with(&seg_m(5, 5, 7, 5)));
    // Same line, but different segments.
    assert!(!seg_m(-5, -5, 2, 2).intersects_with(&seg_m(6, 6, 10, 10)));
    // Less than a unit not touching.
    assert!(!seg_m(5, 0, 1, 5).intersects_with(&seg_m(0, 0, 2, 2)));
    // Parallel horizontals, one above the other.
    assert!(!seg_m(-5, 2, 5, 2).intersects_with(&seg_m(-1, 5, 1, 5)));
    assert!(!seg_m(10, 0, 0, 10).intersects_with(&seg_m(5, 2, 5, 4)));
}

#[test]
fn f9() {
    assert!(!seg_m(-10, 0, 0, 10).intersects_with(&seg_m(-5, 2, -5, 4)));
}

#[test]
fn f10() {
    assert!(!seg_m(10, 0, 10, 10).intersects_with(&seg_m(5, 2, 5, 4)));
}
