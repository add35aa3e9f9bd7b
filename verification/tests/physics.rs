use narrowphase::physics::aabb_check;
use narrowphase::physics::LineSegment;
use narrowphase::rational::Rational;
use narrowphase::thing::Thing;
use narrowphase::vec2::Vec2;

// A box with center (cx, cy) and half-extents (hx, hy).
fn boxed(cx: i32, cy: i32, hx: i32, hy: i32) -> Thing {
    Thing::new(Vec2::new(cx, cy), Vec2::new(2 * hx, 2 * hy))
}

fn seg_p(x1: i32, y1: i32, x2: i32, y2: i32) -> LineSegment {
    LineSegment::new(Vec2::new(x1, y1), Vec2::new(x2, y2))
}

#[test]
fn intersection() {
    let a = boxed(0, 0, 2, 2);
    let b = boxed(1, 1, 2, 2);

    assert!(aabb_check(&a, &b))
}

// It makes sure that the intersection algorithm doesn't false positive if
// only X intersects.
#[test]
fn x_axis_overlap_no_intersect() {
    let a = boxed(0, 0, 2, 2);
    let b = boxed(1, 10, 2, 2);

    assert!(!aabb_check(&a, &b))
}

#[test]
fn y_axis_overlap_no_intersect() {
    let a = boxed(0, 0, 2, 2);
    let b = boxed(10, 1, 2, 2);

    assert!(!aabb_check(&a, &b))
}

#[test]
fn slope_is_correct() {
    let a = seg_p(0, 0, 1, 1);
    assert_eq!(a.slope(), Some(Rational { num: 1, den: 1 }));

    let b = seg_p(0, 0, 1, -1);
    assert_eq!(b.slope(), Some(Rational { num: -1, den: 1 }));

    let c = seg_p(0, 0, 3, 1);
    assert_eq!(c.slope(), Some(Rational { num: 1, den: 3 }));
}

#[test]
fn vertical_lines_are_parallel() {
    let a = seg_p(0, 0, 0, 10);
    let b = seg_p(1, 0, 1, 10);

    assert!(a.parallel_to(&b))
}

#[test]
fn horizontal_lines_are_parallel() {
    let a = seg_p(0, 0, 10, 0);
    let b = seg_p(0, 1, 10, 1);

    assert!(a.parallel_to(&b))
}

#[test]
fn sloped_lines_are_parallel() {
    // Positive slope
    let a = seg_p(0, 0, 2, 2);
    let b = seg_p(1, 0, 3, 2);

    assert!(a.parallel_to(&b));

    // Negative slope
    let _c = seg_p(0, 0, -2, -2);
    let _d = seg_p(-1, 0, -3, -2);

    assert!(a.parallel_to(&b))
}

#[test]
fn segment_has_point() {
    let a = seg_p(0, 0, 2, 2);

    assert!(a.has_point(Vec2::new(1, 1)))
}
