use narrowphase::physics::aabb_check;
use narrowphase::physics::AxisAlignedBoundingBox;
use narrowphase::physics::Intersection;
use narrowphase::physics::LineSegment;
use narrowphase::rational::Rational;
use narrowphase::size::Size;
use narrowphase::thing::Side;
use narrowphase::thing::Thing;
use narrowphase::vec2::Vec2;

fn seg_q(x1: i32, y1: i32, x2: i32, y2: i32) -> LineSegment {
    LineSegment::new(Vec2::new(x1, y1), Vec2::new(x2, y2))
}

fn box_q(cx: i32, cy: i32, hx: i32, hy: i32) -> Thing {
    Thing::new(Vec2::new(cx, cy), Vec2::new(2 * hx, 2 * hy))
}

// A rational equals the integer v when num == v * den.
fn rat_is(q: Rational, v: i128) -> bool {
    q.den > 0 && q.num == v * q.den
}

#[test]
fn box_overlap_is_symmetric() {
    let a = box_q(0, 0, 2, 2);
    let b = box_q(1, 1, 2, 2);
    let c = box_q(10, 1, 2, 2);
    assert_eq!(aabb_check(&a, &b), aabb_check(&b, &a));
    assert_eq!(aabb_check(&a, &c), aabb_check(&c, &a));
}

#[test]
fn boxes_sharing_an_edge_do_not_overlap() {
    // a spans [(0,0),(2,2)], b spans [(2,0),(4,2)]: one shared edge at x=2.
    let a = box_q(1, 1, 1, 1);
    let b = box_q(3, 1, 1, 1);
    assert!(!aabb_check(&a, &b));
    assert!(!aabb_check(&b, &a));

    // The same, stacked: shared edge at y=2.
    let c = box_q(1, 3, 1, 1);
    assert!(!aabb_check(&a, &c));
    assert!(!aabb_check(&c, &a));
}

#[test]
fn perpendicular_crossing_point() {
    let a = seg_q(-5, 0, 5, 0);
    let b = seg_q(0, 5, 0, -5);
    assert!(a.intersects_with(&b));
    match a.calculate_intersection_point(&b) {
        Intersection::Point(p) => {
            assert!(rat_is(p.x, 0));
            assert!(rat_is(p.y, 0));
        }
        Intersection::Line(_) => panic!("expected a point"),
    }
}

#[test]
fn endpoint_touch_point() {
    let a = seg_q(0, 0, 2, 2);
    let b = seg_q(1, 1, 4, 3);
    assert!(a.intersects_with(&b));
    match a.calculate_intersection_point(&b) {
        Intersection::Point(p) => {
            assert!(rat_is(p.x, 1));
            assert!(rat_is(p.y, 1));
        }
        Intersection::Line(_) => panic!("expected a point"),
    }
}

#[test]
fn collinear_overlap_line() {
    let a = seg_q(0, 0, 10, 10);
    let b = seg_q(2, 2, 7, 7);
    assert!(a.intersects_with(&b));
    match a.calculate_intersection_point(&b) {
        Intersection::Line(l) => assert_eq!(l, seg_q(2, 2, 7, 7)),
        Intersection::Point(_) => panic!("expected a sub-segment"),
    }
}

#[test]
fn identical_segments_overlap_whole() {
    let a = seg_q(6, -3, -5, -1);
    let b = seg_q(6, -3, -5, -1);
    assert!(a.intersects_with(&b));
    // The overlap is the segment itself, reported left to right.
    match a.calculate_intersection_point(&b) {
        Intersection::Line(l) => assert_eq!(l, seg_q(-5, -1, 6, -3)),
        Intersection::Point(_) => panic!("expected a sub-segment"),
    }
}

#[test]
fn negative_slope_collinear_overlap() {
    // B lies collinear and strictly inside A; both fall as x grows.
    let a = seg_q(0, 10, 10, 0);
    let b = seg_q(2, 8, 7, 3);
    assert!(a.intersects_with(&b));
    match a.calculate_intersection_point(&b) {
        Intersection::Line(l) => assert_eq!(l, seg_q(2, 8, 7, 3)),
        Intersection::Point(_) => panic!("expected a sub-segment"),
    }
}

#[test]
fn horizontal_collinear_overlap() {
    // A lies inside B on the same horizontal line.
    let a = seg_q(2, 0, 7, 0);
    let b = seg_q(0, 0, 10, 0);
    assert!(a.intersects_with(&b));
    match a.calculate_intersection_point(&b) {
        Intersection::Line(l) => assert_eq!(l, seg_q(2, 0, 7, 0)),
        Intersection::Point(_) => panic!("expected a sub-segment"),
    }
}

#[test]
fn non_intersecting_calculation_still_returns() {
    // Asking for the point without an intersection is a precondition
    // violation by intent: the result is meaningless, but the call returns a
    // value and does not panic.
    let a = seg_q(2, 2, 10, 10);
    let b = seg_q(4, 5, 8, 9);
    assert!(!a.intersects_with(&b));
    assert!(matches!(a.calculate_intersection_point(&b), Intersection::Line(_)));

    let c = seg_q(0, 0, 0, 2);
    let d = seg_q(5, 5, 7, 5);
    assert!(!c.intersects_with(&d));
    assert!(matches!(c.calculate_intersection_point(&d), Intersection::Point(_)));
}

#[test]
fn vertical_overlap_line() {
    let a = seg_q(0, 0, 0, 10);
    let b = seg_q(0, 20, 0, 5);
    assert!(a.intersects_with(&b));
    match a.calculate_intersection_point(&b) {
        Intersection::Line(l) => assert_eq!(l, seg_q(0, 5, 0, 10)),
        Intersection::Point(_) => panic!("expected a sub-segment"),
    }
}

#[test]
fn one_vertical_point() {
    let a = seg_q(4, 0, 4, 8);
    let b = seg_q(0, 4, 4, 4);
    assert!(a.intersects_with(&b));
    match a.calculate_intersection_point(&b) {
        Intersection::Point(p) => {
            // The abscissa is the vertical segment's, exactly.
            assert_eq!(p.x, Rational { num: 4, den: 1 });
            assert!(rat_is(p.y, 4));
        }
        Intersection::Line(_) => panic!("expected a point"),
    }
}

#[test]
fn repeated_calls_are_identical() {
    let a = seg_q(0, 0, 2, 2);
    let b = seg_q(1, 1, 4, 3);
    assert_eq!(a.intersects_with(&b), a.intersects_with(&b));
    assert_eq!(a.calculate_intersection_point(&b), a.calculate_intersection_point(&b));
    let c = box_q(0, 0, 2, 2);
    let d = box_q(1, 1, 2, 2);
    assert_eq!(aabb_check(&c, &d), aabb_check(&c, &d));
}

#[test]
fn vertical_slope_is_undefined() {
    assert!(seg_q(0, 0, 0, 5).slope().is_none());
    // A zero-length segment counts as vertical.
    assert!(seg_q(1, 1, 1, 1).slope().is_none());
}

#[test]
fn negative_sloped_lines_are_parallel() {
    let c = seg_q(0, 0, -2, -2);
    let d = seg_q(-1, 0, -3, -2);
    assert!(c.parallel_to(&d));
}

#[test]
fn different_slopes_are_not_parallel() {
    assert!(!seg_q(0, 0, 2, 2).parallel_to(&seg_q(0, 0, 3, 1)));
    // Vertical against non-vertical.
    assert!(!seg_q(0, 0, 0, 2).parallel_to(&seg_q(0, 0, 3, 1)));
}

#[test]
fn zero_length_segment_is_on_every_line() {
    // Its direction vector is zero, so the cross product vanishes for any
    // point.
    assert!(seg_q(1, 1, 1, 1).has_point(Vec2::new(5, 9)));
}

#[test]
fn swap_points_reverses() {
    let mut a = seg_q(1, 2, 3, 4);
    a.swap_points();
    assert_eq!(a, seg_q(3, 4, 1, 2));
}

#[test]
fn bounds_are_sorted_corners() {
    let b = seg_q(5, 0, 1, 5).bounds();
    assert_eq!(b.low, Vec2::new(1, 0));
    assert_eq!(b.high, Vec2::new(5, 5));
}

#[test]
fn touching_bounds_collide_inclusively() {
    let a = seg_q(0, 0, 2, 2).bounds();
    let b = seg_q(2, 2, 4, 4).bounds();
    assert!(a.bounding_box_collides_with(&b));
}

#[test]
fn thing_edges_and_corners() {
    let t = box_q(0, 0, 2, 2);
    assert_eq!(t.top(), seg_q(-2, 2, 2, 2));
    assert_eq!(t.right(), seg_q(2, 2, 2, -2));
    assert_eq!(t.bottom(), seg_q(-2, -2, 2, -2));
    assert_eq!(t.left(), seg_q(-2, 2, -2, -2));
    assert_eq!(t.topright(), Vec2::new(2, 2));
    assert_eq!(t.topleft(), Vec2::new(-2, 2));
    assert_eq!(t.bottomright(), Vec2::new(2, -2));
    assert_eq!(t.bottomleft(), Vec2::new(-2, -2));
}

#[test]
fn thing_offset_remembers_previous() {
    let mut t = box_q(0, 0, 2, 2);
    t.offset(Vec2::new(3, 1));
    assert_eq!(t.center, Vec2::new(3, 1));
    assert_eq!(t.previous_center, Vec2::new(0, 0));
    assert_eq!(t.bottom_left(), Vec2::new(1, -1));
    assert_eq!(t.top_right(), Vec2::new(5, 3));
    assert_eq!(t.previous_bottom_left(), Vec2::new(-2, -2));
    assert_eq!(t.previous_top_rght(), Vec2::new(2, 2));

    t.put(Vec2::new(0, 0));
    assert_eq!(t.center, Vec2::new(0, 0));
    // put does not touch the previous position.
    assert_eq!(t.previous_center, Vec2::new(0, 0));
}

#[test]
fn edge_intersections_of_overlapping_boxes() {
    let a = box_q(0, 0, 2, 2);
    let b = box_q(0, 0, 2, 2);
    // A box against itself: every edge meets some edge.
    assert_eq!(a.edge_intersections(&b), vec![true, true, true, true]);

    let far = box_q(100, 100, 2, 2);
    assert_eq!(a.edge_intersections(&far), vec![false, false, false, false]);
}

#[test]
fn intersect_segment_reports_sides_in_order() {
    let t = box_q(0, 0, 2, 2);
    let crossing = seg_q(-5, 0, 5, 0);
    let hits = t.intersect_segment(&crossing);
    assert_eq!(hits.len(), 2);
    assert!(matches!(hits[0].0, Side::Right));
    assert!(matches!(hits[1].0, Side::Left));
    match hits[0].1 {
        Intersection::Point(p) => {
            assert_eq!(p.x, Rational { num: 2, den: 1 });
            assert!(rat_is(p.y, 0));
        }
        Intersection::Line(_) => panic!("expected a point"),
    }
    match hits[1].1 {
        Intersection::Point(p) => {
            assert_eq!(p.x, Rational { num: -2, den: 1 });
            assert!(rat_is(p.y, 0));
        }
        Intersection::Line(_) => panic!("expected a point"),
    }

    let missing = seg_q(50, 50, 60, 50);
    assert!(t.intersect_segment(&missing).is_empty());
}

#[test]
fn stride_counts_cells() {
    let s = Size { width: 3, height: 4 };
    assert_eq!(s.stride(), 12);
    let t = Size::from((2, 5));
    assert_eq!(t, Size { width: 2, height: 5 });
    assert_eq!(t.stride(), 10);
}

#[test]
fn rational_from_int_is_exact() {
    let q = Rational::from_int(7);
    assert_eq!(q, Rational { num: 7, den: 1 });
    let n = Rational::from_int(-3);
    assert!(rat_is(n, -3));
}
