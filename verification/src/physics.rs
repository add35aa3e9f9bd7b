use vstd::prelude::*;

use crate::rational::Rational;
use crate::vec2::Vec2;

verus! {

use vstd::math::abs;
use vstd::math::max;
use vstd::math::min;

/// Every coordinate difference of two `i32` values fits in this bound.
pub open spec fn coord_diff_bound() -> int {
    0x1_0000_0000
}

/// The product of two values bounded by `m` and `n` is bounded by `m * n`.
proof fn lemma_mul_bounds(a: int, b: int, m: int, n: int)
    by (nonlinear_arith)
    requires
        -m <= a <= m,
        -n <= b <= n,
        0 <= m,
        0 <= n,
    ensures
        -(m * n) <= a * b <= m * n,
{
}

/// Anything that can report its axis-aligned extent as a bottom-left and a
/// top-right corner, and the extent it had one frame earlier for swept
/// collision use.
///
/// The spec functions give the corners as values; the executable methods
/// promise to return exactly those values. `wf` is whatever well-formedness
/// the implementing type needs so that the corners can be computed without
/// leaving the `i32` range.
pub trait AxisAlignedBoundingBox {
    spec fn wf(&self) -> bool;

    spec fn bottom_left_spec(&self) -> Vec2;

    spec fn top_right_spec(&self) -> Vec2;

    spec fn previous_bottom_left_spec(&self) -> Vec2;

    spec fn previous_top_rght_spec(&self) -> Vec2;

    fn bottom_left(&self) -> (r: Vec2)
        requires
            self.wf(),
        ensures
            r == self.bottom_left_spec(),
    ;

    fn top_right(&self) -> (r: Vec2)
        requires
            self.wf(),
        ensures
            r == self.top_right_spec(),
    ;

    fn previous_bottom_left(&self) -> (r: Vec2)
        requires
            self.wf(),
        ensures
            r == self.previous_bottom_left_spec(),
    ;

    fn previous_top_rght(&self) -> (r: Vec2)
        requires
            self.wf(),
        ensures
            r == self.previous_top_rght_spec(),
    ;
}

/// Two boxes, each given by its bottom-left and top-right corner, overlap on
/// both axes. The inequalities are strict: boxes that merely share an edge do
/// not overlap.
pub open spec fn boxes_overlap(a_bl: Vec2, a_tr: Vec2, b_bl: Vec2, b_tr: Vec2) -> bool {
    a_bl.x < b_tr.x && a_tr.x > b_bl.x && a_bl.y < b_tr.y && a_tr.y > b_bl.y
}

/// Decide whether the boxes `a` and `b` overlap, strictly, on both axes.
pub fn aabb_check<A, B>(a: &A, b: &B) -> (r: bool) where
    A: AxisAlignedBoundingBox,
    B: AxisAlignedBoundingBox,

    requires
        a.wf(),
        b.wf(),
    ensures
        r == boxes_overlap(
            a.bottom_left_spec(),
            a.top_right_spec(),
            b.bottom_left_spec(),
            b.top_right_spec(),
        ),
{
    let a_bl = a.bottom_left();
    let a_tr = a.top_right();

    let b_bl = b.bottom_left();
    let b_tr = b.top_right();

    if a_bl.x < b_tr.x && a_tr.x > b_bl.x {
        // Collide on X axis
        if a_bl.y < b_tr.y && a_tr.y > b_bl.y {
            // Collide on y axis
            true
        } else {
            false
        }
    } else {
        false
    }
}

/// Box overlap is symmetric: it does not matter which box is asked first.
pub proof fn lemma_box_overlap_symmetric(a_bl: Vec2, a_tr: Vec2, b_bl: Vec2, b_tr: Vec2)
    ensures
        boxes_overlap(a_bl, a_tr, b_bl, b_tr) == boxes_overlap(b_bl, b_tr, a_bl, a_tr),
{
}

/// Boxes that merely touch do not overlap: whenever the two boxes share a
/// boundary coordinate on either axis, in either order, the strict comparison
/// rejects them.
pub proof fn lemma_touching_boxes_do_not_overlap(a_bl: Vec2, a_tr: Vec2, b_bl: Vec2, b_tr: Vec2)
    requires
        a_tr.x == b_bl.x || b_tr.x == a_bl.x || a_tr.y == b_bl.y || b_tr.y == a_bl.y,
    ensures
        !boxes_overlap(a_bl, a_tr, b_bl, b_tr),
{
}

/// A finite line segment between two endpoints.
///
/// A segment is a plain value; its slope and bounds are derived from the
/// endpoints on demand. A zero-length segment (`start == end`) is permitted
/// and counts as vertical: its slope is undefined and its line through any
/// point degenerates, so `has_point` accepts every point.
#[derive(Copy, Clone, Debug, PartialEq, Eq, Structural)]
pub struct LineSegment {
    pub start: Vec2,
    pub end: Vec2,
}

impl LineSegment {
    pub open spec fn is_vertical(self) -> bool {
        self.start.x == self.end.x
    }

    pub open spec fn is_horizontal(self) -> bool {
        self.start.y == self.end.y
    }

    pub fn new(start: Vec2, end: Vec2) -> (r: LineSegment)
        ensures
            r.start == start,
            r.end == end,
    {
        LineSegment { start, end }
    }

    pub fn vertical(&self) -> (r: bool)
        ensures
            r == self.is_vertical(),
    {
        self.start.x == self.end.x
    }

    pub fn horizontal(&self) -> (r: bool)
        ensures
            r == self.is_horizontal(),
    {
        self.start.y == self.end.y
    }

    /// Reverse the segment's direction in place.
    pub fn swap_points(&mut self)
        ensures
            final(self).start == old(self).end,
            final(self).end == old(self).start,
    {
        let tmp = self.start;
        self.start = self.end;
        self.end = tmp;
    }

    /// The numerator of the segment's slope, oriented so that the
    /// denominator [`LineSegment::slope_den`] is non-negative.
    pub open spec fn slope_num(self) -> int {
        if self.end.x > self.start.x {
            self.end.y - self.start.y
        } else {
            self.start.y - self.end.y
        }
    }

    /// The denominator of the segment's slope: the absolute run.
    pub open spec fn slope_den(self) -> int {
        abs(self.end.x - self.start.x) as int
    }

    /// The slope of the segment, rise over run, as an exact rational;
    /// `None` when the segment is vertical (including zero-length), where
    /// the slope is undefined.
    pub fn slope(&self) -> (r: Option<Rational>)
        ensures
            r is Some <==> !self.is_vertical(),
            r matches Some(q) ==> q.wf() && q.num == self.slope_num() && q.den
                == self.slope_den(),
    {
        let dx = self.end.x as i64 - self.start.x as i64;

        if dx == 0 {
            return None;
        }

        let dy = self.end.y as i64 - self.start.y as i64;
        if dx > 0 {
            Some(Rational { num: dy as i128, den: dx as i128 })
        } else {
            Some(Rational { num: -dy as i128, den: -dx as i128 })
        }
    }

    /// The two segments have the same direction: both are vertical, or
    /// neither is and their slopes are equal as exact rationals.
    pub open spec fn spec_parallel(self, b: LineSegment) -> bool {
        (self.is_vertical() && b.is_vertical()) || (!self.is_vertical() && !b.is_vertical() && (
        self.end.y - self.start.y) * (b.end.x - b.start.x) == (b.end.y - b.start.y) * (self.end.x
            - self.start.x))
    }

    /// Decide whether `self` is parallel to `b`. Slopes compare exactly: on
    /// integer coordinates rise-over-run equality is the cross product of the
    /// two direction vectors being zero, with no rounding involved.
    pub fn parallel_to(&self, b: &LineSegment) -> (r: bool)
        ensures
            r == self.spec_parallel(*b),
    {
        if self.vertical() && b.vertical() {
            return true;
        }
        if self.vertical() || b.vertical() {
            return false;
        }
        let dya = self.end.y as i64 - self.start.y as i64;
        let dxa = self.end.x as i64 - self.start.x as i64;
        let dyb = b.end.y as i64 - b.start.y as i64;
        let dxb = b.end.x as i64 - b.start.x as i64;
        proof {
            lemma_mul_bounds(dya as int, dxb as int, coord_diff_bound(), coord_diff_bound());
            lemma_mul_bounds(dyb as int, dxa as int, coord_diff_bound(), coord_diff_bound());
        }
        dya as i128 * dxb as i128 == dyb as i128 * dxa as i128
    }

    /// The axis-aligned extent of the segment: componentwise minimum and
    /// maximum of its two endpoints.
    pub fn bounds(&self) -> (r: Bounds)
        ensures
            r.low.x == min(self.start.x as int, self.end.x as int),
            r.low.y == min(self.start.y as int, self.end.y as int),
            r.high.x == max(self.start.x as int, self.end.x as int),
            r.high.y == max(self.start.y as int, self.end.y as int),
    {
        let (low_x, high_x) = if self.start.x < self.end.x {
            (self.start.x, self.end.x)
        } else {
            (self.end.x, self.start.x)
        };
        let (low_y, high_y) = if self.start.y < self.end.y {
            (self.start.y, self.end.y)
        } else {
            (self.end.y, self.start.y)
        };
        Bounds { low: Vec2 { x: low_x, y: low_y }, high: Vec2 { x: high_x, y: high_y } }
    }

    /// The cross product of the segment's direction vector with the vector
    /// from its start to `p`. Zero exactly when `p` lies on the segment's
    /// infinite line; the sign tells on which side of the line `p` lies.
    pub open spec fn cross_of(self, p: Vec2) -> int {
        (self.end.x - self.start.x) * (p.y - self.start.y) - (p.x - self.start.x) * (self.end.y
            - self.start.y)
    }

    pub open spec fn spec_has_point(self, p: Vec2) -> bool {
        self.cross_of(p) == 0
    }

    pub open spec fn spec_left_of_point(self, p: Vec2) -> bool {
        self.cross_of(p) < 0
    }

    /// Does `point` lie on the segment's infinite line?
    ///
    /// Cross products of integer vectors are integers, so a point is on the
    /// line exactly when the cross product is zero; any point off the line
    /// gives a cross product of magnitude at least one, and no tolerance is
    /// needed.
    pub fn has_point(&self, point: Vec2) -> (r: bool)
        ensures
            r == self.spec_has_point(point),
    {
        let dx = self.end.x as i64 - self.start.x as i64;
        let dy = self.end.y as i64 - self.start.y as i64;
        let px = point.x as i64 - self.start.x as i64;
        let py = point.y as i64 - self.start.y as i64;
        point_cross_product(dx, dy, px, py) == 0
    }

    /// Does `p` lie strictly on the left of the segment's directed line?
    fn left_of_point(&self, p: Vec2) -> (r: bool)
        ensures
            r == self.spec_left_of_point(p),
    {
        let dx = self.end.x as i64 - self.start.x as i64;
        let dy = self.end.y as i64 - self.start.y as i64;
        let px = p.x as i64 - self.start.x as i64;
        let py = p.y as i64 - self.start.y as i64;
        point_cross_product(dx, dy, px, py) < 0
    }

    /// `b` touches the line of `self`, or crosses it: one of `b`'s endpoints
    /// lies on the line of `self`, or the two endpoints lie strictly on
    /// opposite sides of it.
    pub open spec fn spec_touches_or_crosses(self, b: LineSegment) -> bool {
        self.spec_has_point(b.start) || self.spec_has_point(b.end) || (self.spec_left_of_point(
            b.start,
        ) != self.spec_left_of_point(b.end))
    }

    fn touches_or_crosses(&self, b: &LineSegment) -> (r: bool)
        ensures
            r == self.spec_touches_or_crosses(*b),
    {
        self.has_point(b.start) || self.has_point(b.end) || (self.left_of_point(b.start)
            ^ self.left_of_point(b.end))
    }

    /// The two segments share at least one point: their bounds touch and
    /// each segment touches or crosses the line of the other.
    pub open spec fn spec_intersects(self, b: LineSegment) -> bool {
        bounds_touch(self, b) && self.spec_touches_or_crosses(b) && b.spec_touches_or_crosses(self)
    }

    /// Decide whether the two segments intersect: a bounding-box pre-filter
    /// (inclusive, so segments that merely touch at a shared boundary pass),
    /// then the orientation test in both directions.
    pub fn intersects_with(&self, b: &LineSegment) -> (r: bool)
        ensures
            r == self.spec_intersects(*b),
    {
        self.bounds().bounding_box_collides_with(&b.bounds()) && self.touches_or_crosses(b)
            && b.touches_or_crosses(self)
    }
}

/// A point with exact rational coordinates, as produced when two integer
/// segments cross.
#[derive(Copy, Clone, Debug, PartialEq, Eq, Structural)]
pub struct RatPoint {
    pub x: Rational,
    pub y: Rational,
}

/// The exact intersection of two segments that do intersect: either a single
/// crossing point, or a collinear overlapping sub-segment when the segments
/// are parallel and coincident.
///
/// There is no variant for "no intersection": callers establish
/// [`LineSegment::intersects_with`] first and only then ask for the point.
#[derive(Copy, Clone, Debug, PartialEq, Eq, Structural)]
pub enum Intersection {
    Line(LineSegment),
    Point(RatPoint),
}

impl LineSegment {
    /// `p` lies on the segment's infinite line, stated for rational
    /// coordinates by clearing both denominators (which must be positive).
    pub open spec fn rat_on_line(self, p: RatPoint) -> bool {
        (self.end.x - self.start.x) * (p.y.num - self.start.y * p.y.den) * p.x.den == (self.end.y
            - self.start.y) * (p.x.num - self.start.x * p.x.den) * p.y.den
    }

    /// The segment with its endpoints ordered so that `start.y <= end.y`.
    pub open spec fn y_sorted_spec(self) -> LineSegment {
        if self.start.y > self.end.y {
            LineSegment { start: self.end, end: self.start }
        } else {
            self
        }
    }

    fn y_sorted(&self) -> (r: LineSegment)
        ensures
            r == self.y_sorted_spec(),
    {
        if self.start.y > self.end.y {
            LineSegment { start: self.end, end: self.start }
        } else {
            *self
        }
    }

    /// The segment with its endpoints ordered so that `start.x <= end.x`.
    pub open spec fn x_sorted_spec(self) -> LineSegment {
        if self.start.x > self.end.x {
            LineSegment { start: self.end, end: self.start }
        } else {
            self
        }
    }

    fn x_sorted(&self) -> (r: LineSegment)
        ensures
            r == self.x_sorted_spec(),
    {
        if self.start.x > self.end.x {
            LineSegment { start: self.end, end: self.start }
        } else {
            *self
        }
    }

    /// Compute the exact intersection of two segments known to intersect.
    ///
    /// Callers normally establish [`LineSegment::intersects_with`] first. On
    /// segments that do not intersect the call still returns, without
    /// panicking: the same case analysis is applied, and its value is then
    /// geometrically meaningless. The cases, with ties broken
    /// deterministically:
    ///
    /// * both segments vertical: the coincident overlap, a vertical
    ///   sub-segment at this segment's abscissa spanning from the larger of
    ///   the two lower endpoint ordinates to the smaller of the two upper
    ///   ones;
    /// * exactly one segment vertical: the point at the vertical segment's
    ///   abscissa on the other segment's line;
    /// * neither vertical but slopes exactly equal: the coincident overlap,
    ///   the shared sub-segment spanning from the larger of the two leftmost
    ///   endpoints to the smaller of the two rightmost ones;
    /// * otherwise: the unique crossing point of the two lines, exact.
    pub fn calculate_intersection_point(&self, b: &LineSegment) -> (r: Intersection)
        ensures
            intersection_result_ok(*self, *b, r),
    {
        let a = *self;
        let b = *b;

        if a.vertical() {
            if b.vertical() {
                // Both lines vertical and coincident: the overlap is the
                // shared span of ordinates at this segment's abscissa.
                let a1 = a.y_sorted();
                let b1 = b.y_sorted();
                let start_y = if a1.start.y > b1.start.y {
                    a1.start.y
                } else {
                    b1.start.y
                };
                let end_y = if a1.end.y <= b1.end.y {
                    a1.end.y
                } else {
                    b1.end.y
                };
                Intersection::Line(
                    LineSegment::new(Vec2::new(a.start.x, start_y), Vec2::new(a.start.x, end_y)),
                )
            } else {
                Intersection::Point(point_on_line_at_x(&b, a.start.x))
            }
        } else if b.vertical() {
            Intersection::Point(point_on_line_at_x(&a, b.start.x))
        } else {
            if a.parallel_to(&b) {
                // Equal slopes: the segments are coincident, and the overlap
                // is the shared span of abscissas on the common line.
                let a1 = a.x_sorted();
                let b1 = b.x_sorted();
                let start = if a1.start.x > b1.start.x {
                    a1.start
                } else {
                    b1.start
                };
                let end = if a1.end.x <= b1.end.x {
                    a1.end
                } else {
                    b1.end
                };
                Intersection::Line(LineSegment::new(start, end))
            } else {
                proof {
                    assert(dir_cross(a, b) != 0) by (nonlinear_arith)
                        requires
                            (a.end.y - a.start.y) * (b.end.x - b.start.x) != (b.end.y - b.start.y)
                                * (a.end.x - a.start.x),
                    ;
                }
                Intersection::Point(line_crossing(&a, &b))
            }
        }
    }
}

/// The cross product of the two segments' direction vectors; zero exactly
/// when the segments point along the same or opposite directions.
pub open spec fn dir_cross(a: LineSegment, b: LineSegment) -> int {
    (a.end.x - a.start.x) * (b.end.y - b.start.y) - (b.end.x - b.start.x) * (a.end.y - a.start.y)
}

/// The coincident overlap of two vertical segments, at `a`'s abscissa.
pub open spec fn coincident_vertical_overlap(a: LineSegment, b: LineSegment) -> LineSegment {
    LineSegment {
        start: Vec2 {
            x: a.start.x,
            y: max(
                min(a.start.y as int, a.end.y as int),
                min(b.start.y as int, b.end.y as int),
            ) as i32,
        },
        end: Vec2 {
            x: a.start.x,
            y: min(
                max(a.start.y as int, a.end.y as int),
                max(b.start.y as int, b.end.y as int),
            ) as i32,
        },
    }
}

/// The coincident overlap of two equal-slope, non-vertical segments: order
/// each segment by abscissa, start at the larger of the two leftmost
/// endpoints, and end at the smaller of the two rightmost ones — the shared
/// sub-segment of the common line, spanning the x-interval on which both
/// segments lie.
pub open spec fn coincident_slanted_overlap(a: LineSegment, b: LineSegment) -> LineSegment {
    let a1 = a.x_sorted_spec();
    let b1 = b.x_sorted_spec();
    LineSegment {
        start: if a1.start.x > b1.start.x {
            a1.start
        } else {
            b1.start
        },
        end: if a1.end.x <= b1.end.x {
            a1.end
        } else {
            b1.end
        },
    }
}

/// The ordinate of the non-vertical segment `s`'s line at abscissa `x`, as
/// one exact fraction over the segment's sign-normalized run.
pub open spec fn line_y_at(s: LineSegment, x: int) -> Rational {
    let dx = s.end.x - s.start.x;
    let dy = s.end.y - s.start.y;
    let yn = dy * (x - s.start.x) + s.start.y * dx;
    if dx < 0 {
        Rational { num: (-yn) as i128, den: (-dx) as i128 }
    } else {
        Rational { num: yn as i128, den: dx as i128 }
    }
}

/// The point where a vertical line at abscissa `x` meets the line of the
/// non-vertical segment `s`.
pub open spec fn point_at_abscissa(s: LineSegment, x: int) -> RatPoint {
    RatPoint { x: Rational { num: x as i128, den: 1 }, y: line_y_at(s, x) }
}

/// The crossing point of the two non-parallel lines, both coordinates over
/// the same positive denominator, the cross product of the two directions.
pub open spec fn lines_crossing_point(a: LineSegment, b: LineSegment) -> RatPoint {
    let d = dir_cross(a, b);
    let e = (b.end.x - b.start.x) * (a.start.y - b.start.y) - (a.start.x - b.start.x) * (b.end.y
        - b.start.y);
    let xn = a.start.x * d + e * (a.end.x - a.start.x);
    let yn = a.start.y * d + e * (a.end.y - a.start.y);
    if d < 0 {
        RatPoint {
            x: Rational { num: (-xn) as i128, den: (-d) as i128 },
            y: Rational { num: (-yn) as i128, den: (-d) as i128 },
        }
    } else {
        RatPoint {
            x: Rational { num: xn as i128, den: d as i128 },
            y: Rational { num: yn as i128, den: d as i128 },
        }
    }
}

/// What [`LineSegment::calculate_intersection_point`] promises of its result,
/// case by case. Every case pins the returned value exactly, down to the
/// numerators and denominators of a point's coordinates; the on-line clauses
/// state what the pinned values mean geometrically.
pub open spec fn intersection_result_ok(a: LineSegment, b: LineSegment, r: Intersection) -> bool {
    if a.is_vertical() && b.is_vertical() {
        r matches Intersection::Line(l) && l == coincident_vertical_overlap(a, b)
    } else if a.is_vertical() {
        r matches Intersection::Point(p) && p == point_at_abscissa(b, a.start.x as int)
            && p.x.den == 1 && p.x.num == a.start.x && p.y.wf() && b.rat_on_line(p)
    } else if b.is_vertical() {
        r matches Intersection::Point(p) && p == point_at_abscissa(a, b.start.x as int)
            && p.x.den == 1 && p.x.num == b.start.x && p.y.wf() && a.rat_on_line(p)
    } else if a.spec_parallel(b) {
        r matches Intersection::Line(l) && l == coincident_slanted_overlap(a, b)
    } else {
        r matches Intersection::Point(p) && p == lines_crossing_point(a, b) && p.x.wf()
            && p.y.wf() && a.rat_on_line(p) && b.rat_on_line(p)
    }
}

/// Repeated calls with identical inputs produce identical results: the
/// contract pins the returned value exactly in every case, so any two
/// results it admits for the same pair of segments are equal, bit for bit.
pub proof fn lemma_intersection_deterministic(
    a: LineSegment,
    b: LineSegment,
    r1: Intersection,
    r2: Intersection,
)
    requires
        intersection_result_ok(a, b, r1),
        intersection_result_ok(a, b, r2),
    ensures
        r1 == r2,
{
}

/// The exact point on the line of the non-vertical segment `s` at abscissa
/// `x`: its ordinate is the line equation `slope * x + intercept` evaluated
/// as one fraction over the segment's run.
fn point_on_line_at_x(s: &LineSegment, x: i32) -> (p: RatPoint)
    requires
        !s.is_vertical(),
    ensures
        p == point_at_abscissa(*s, x as int),
        p.x.den == 1,
        p.x.num == x,
        p.y.wf(),
        s.rat_on_line(p),
{
    let dx = s.end.x as i64 - s.start.x as i64;
    let dy = s.end.y as i64 - s.start.y as i64;
    let off = x as i64 - s.start.x as i64;
    proof {
        lemma_mul_bounds(dy as int, off as int, coord_diff_bound(), coord_diff_bound());
        lemma_mul_bounds(s.start.y as int, dx as int, coord_diff_bound(), coord_diff_bound());
    }
    let yn = dy as i128 * off as i128 + s.start.y as i128 * dx as i128;
    let p = if dx < 0 {
        RatPoint {
            x: Rational { num: x as i128, den: 1 },
            y: Rational { num: -yn, den: (-dx) as i128 },
        }
    } else {
        RatPoint {
            x: Rational { num: x as i128, den: 1 },
            y: Rational { num: yn, den: dx as i128 },
        }
    };
    proof {
        let sx = s.start.x as int;
        let sy = s.start.y as int;
        let ex = s.end.x as int;
        let ey = s.end.y as int;
        let xx = x as int;
        assert((ex - sx) * (p.y.num - sy * p.y.den) * p.x.den == (ey - sy) * (p.x.num - sx
            * p.x.den) * p.y.den) by (nonlinear_arith)
            requires
                p.x.num == xx,
                p.x.den == 1,
                (p.y.num == (ey - sy) * (xx - sx) + sy * (ex - sx) && p.y.den == ex - sx) || (
                p.y.num == -((ey - sy) * (xx - sx) + sy * (ex - sx)) && p.y.den == -(ex - sx)),
        ;
    }
    p
}

/// The crossing point `(xn / d, yn / d)` lies on the line through
/// `(x1, y1)` with direction `(dxa, dya)`.
proof fn lemma_crossing_on_first_line(
    x1: int,
    y1: int,
    dxa: int,
    dya: int,
    d: int,
    e: int,
    xn: int,
    yn: int,
)
    requires
        xn == x1 * d + e * dxa,
        yn == y1 * d + e * dya,
    ensures
        dxa * (yn - y1 * d) * d == dya * (xn - x1 * d) * d,
{
    assert(yn - y1 * d == e * dya);
    assert(xn - x1 * d == e * dxa);
    assert(dxa * (e * dya) * d == dya * (e * dxa) * d) by (nonlinear_arith);
}

/// The crossing point `(xn / d, yn / d)` lies on the line through
/// `(x3, y3)` with direction `(dxb, dyb)` as well, because `d` and `e` are
/// the two cross products that define it.
proof fn lemma_crossing_on_second_line(
    x1: int,
    y1: int,
    x3: int,
    y3: int,
    dxa: int,
    dya: int,
    dxb: int,
    dyb: int,
    d: int,
    e: int,
    xn: int,
    yn: int,
)
    requires
        d == dxa * dyb - dxb * dya,
        e == dxb * (y1 - y3) - (x1 - x3) * dyb,
        xn == x1 * d + e * dxa,
        yn == y1 * d + e * dya,
    ensures
        dxb * (yn - y3 * d) * d == dyb * (xn - x3 * d) * d,
{
    let u = y1 - y3;
    let v = x1 - x3;
    assert(yn - y3 * d == u * d + e * dya) by (nonlinear_arith)
        requires
            yn == y1 * d + e * dya,
            u == y1 - y3,
    ;
    assert(xn - x3 * d == v * d + e * dxa) by (nonlinear_arith)
        requires
            xn == x1 * d + e * dxa,
            v == x1 - x3,
    ;
    assert(dxb * (u * d + e * dya) == d * (dxb * u) + e * (dxb * dya)) by (nonlinear_arith);
    assert(dyb * (v * d + e * dxa) == d * (dyb * v) + e * (dyb * dxa)) by (nonlinear_arith);
    assert(d * (dxb * u) - d * (dyb * v) == d * (dxb * u - dyb * v)) by (nonlinear_arith);
    assert(e * (dxb * dya) - e * (dyb * dxa) == e * (dxb * dya - dyb * dxa)) by (nonlinear_arith);
    assert(dxb * u - dyb * v == e) by (nonlinear_arith)
        requires
            e == dxb * u - v * dyb,
    ;
    assert(dxb * dya - dyb * dxa == -d) by (nonlinear_arith)
        requires
            d == dxa * dyb - dxb * dya,
    ;
    assert(d * e + e * (-d) == 0) by (nonlinear_arith);
    assert(dxb * (yn - y3 * d) == dyb * (xn - x3 * d));
    assert(dxb * (yn - y3 * d) * d == dyb * (xn - x3 * d) * d) by (nonlinear_arith)
        requires
            dxb * (yn - y3 * d) == dyb * (xn - x3 * d),
    ;
}

/// The unique crossing point of the lines of `a` and `b`, whose direction
/// vectors must not be parallel. Both coordinates are returned over the same
/// positive denominator, the cross product of the two directions.
fn line_crossing(a: &LineSegment, b: &LineSegment) -> (p: RatPoint)
    requires
        dir_cross(*a, *b) != 0,
    ensures
        p == lines_crossing_point(*a, *b),
        p.x.wf(),
        p.y.wf(),
        a.rat_on_line(p),
        b.rat_on_line(p),
{
    let x1 = a.start.x as i64;
    let y1 = a.start.y as i64;
    let dxa = a.end.x as i64 - x1;
    let dya = a.end.y as i64 - y1;
    let x3 = b.start.x as i64;
    let y3 = b.start.y as i64;
    let dxb = b.end.x as i64 - x3;
    let dyb = b.end.y as i64 - y3;
    proof {
        lemma_mul_bounds(dxa as int, dyb as int, coord_diff_bound(), coord_diff_bound());
        lemma_mul_bounds(dxb as int, dya as int, coord_diff_bound(), coord_diff_bound());
        lemma_mul_bounds(dxb as int, y1 - y3, coord_diff_bound(), coord_diff_bound());
        lemma_mul_bounds(x1 - x3, dyb as int, coord_diff_bound(), coord_diff_bound());
    }
    let d = dxa as i128 * dyb as i128 - dxb as i128 * dya as i128;
    let e = dxb as i128 * (y1 - y3) as i128 - (x1 - x3) as i128 * dyb as i128;
    proof {
        let big: int = 2 * coord_diff_bound() * coord_diff_bound();
        lemma_mul_bounds(x1 as int, d as int, coord_diff_bound(), big);
        lemma_mul_bounds(y1 as int, d as int, coord_diff_bound(), big);
        lemma_mul_bounds(e as int, dxa as int, big, coord_diff_bound());
        lemma_mul_bounds(e as int, dya as int, big, coord_diff_bound());
    }
    let xn = x1 as i128 * d + e * dxa as i128;
    let yn = y1 as i128 * d + e * dya as i128;
    proof {
        lemma_crossing_on_first_line(
            x1 as int,
            y1 as int,
            dxa as int,
            dya as int,
            d as int,
            e as int,
            xn as int,
            yn as int,
        );
        lemma_crossing_on_second_line(
            x1 as int,
            y1 as int,
            x3 as int,
            y3 as int,
            dxa as int,
            dya as int,
            dxb as int,
            dyb as int,
            d as int,
            e as int,
            xn as int,
            yn as int,
        );
    }
    if d < 0 {
        let p = RatPoint { x: Rational { num: -xn, den: -d }, y: Rational { num: -yn, den: -d } };
        proof {
            // Negating numerators and denominator together keeps both
            // on-line identities: each side of either identity picks up two
            // sign flips.
            assert(dxa as int * (p.y.num - y1 * p.y.den) * p.x.den == dxa as int * (yn - y1 * d)
                * d) by (nonlinear_arith)
                requires
                    p.y.num == -(yn as int),
                    p.y.den == -(d as int),
                    p.x.den == -(d as int),
            ;
            assert(dya as int * (p.x.num - x1 * p.x.den) * p.y.den == dya as int * (xn - x1 * d)
                * d) by (nonlinear_arith)
                requires
                    p.x.num == -(xn as int),
                    p.x.den == -(d as int),
                    p.y.den == -(d as int),
            ;
            assert(dxb as int * (p.y.num - y3 * p.y.den) * p.x.den == dxb as int * (yn - y3 * d)
                * d) by (nonlinear_arith)
                requires
                    p.y.num == -(yn as int),
                    p.y.den == -(d as int),
                    p.x.den == -(d as int),
            ;
            assert(dyb as int * (p.x.num - x3 * p.x.den) * p.y.den == dyb as int * (xn - x3 * d)
                * d) by (nonlinear_arith)
                requires
                    p.x.num == -(xn as int),
                    p.x.den == -(d as int),
                    p.y.den == -(d as int),
            ;
        }
        p
    } else {
        RatPoint { x: Rational { num: xn, den: d }, y: Rational { num: yn, den: d } }
    }
}

/// Two vertical segments are always parallel.
pub proof fn lemma_vertical_segments_parallel(a: LineSegment, b: LineSegment)
    requires
        a.is_vertical(),
        b.is_vertical(),
    ensures
        a.spec_parallel(b),
{
}

/// Two horizontal segments of nonzero length are always parallel.
///
/// The nonzero length matters: a zero-length segment is horizontal and
/// vertical at once, its slope is undefined, and a vertical segment is never
/// parallel to a non-vertical one.
pub proof fn lemma_horizontal_segments_parallel(a: LineSegment, b: LineSegment)
    requires
        a.is_horizontal(),
        b.is_horizontal(),
        !a.is_vertical(),
        !b.is_vertical(),
    ensures
        a.spec_parallel(b),
{
    assert((a.end.y - a.start.y) * (b.end.x - b.start.x) == 0) by (nonlinear_arith)
        requires
            a.end.y == a.start.y,
    ;
    assert((b.end.y - b.start.y) * (a.end.x - a.start.x) == 0) by (nonlinear_arith)
        requires
            b.end.y == b.start.y,
    ;
}

/// Two non-vertical segments whose computed slopes are equal as rational
/// numbers are parallel.
pub proof fn lemma_equal_slopes_parallel(a: LineSegment, b: LineSegment)
    requires
        !a.is_vertical(),
        !b.is_vertical(),
        a.slope_num() * b.slope_den() == b.slope_num() * a.slope_den(),
    ensures
        a.spec_parallel(b),
{
    let dya = a.end.y - a.start.y;
    let dxa = a.end.x - a.start.x;
    let dyb = b.end.y - b.start.y;
    let dxb = b.end.x - b.start.x;
    assert(dya * dxb == dyb * dxa) by (nonlinear_arith)
        requires
            dxa != 0,
            dxb != 0,
            (if dxa > 0 {
                dya
            } else {
                -dya
            }) * (if dxb > 0 {
                dxb
            } else {
                -dxb
            }) == (if dxb > 0 {
                dyb
            } else {
                -dyb
            }) * (if dxa > 0 {
                dxa
            } else {
                -dxa
            }),
    ;
}

/// Two rational points that both lie on one line satisfy the same
/// proportion: the line's direction crossed with the difference of the two
/// points, denominators cleared, is zero.
proof fn lemma_two_points_on_line(
    dx: int,
    dy: int,
    sx: int,
    sy: int,
    pxn: int,
    pxd: int,
    pyn: int,
    pyd: int,
    qxn: int,
    qxd: int,
    qyn: int,
    qyd: int,
)
    requires
        dx * (pyn - sy * pyd) * pxd == dy * (pxn - sx * pxd) * pyd,
        dx * (qyn - sy * qyd) * qxd == dy * (qxn - sx * qxd) * qyd,
    ensures
        dx * (pxd * qxd) * (pyn * qyd - qyn * pyd) == dy * (pyd * qyd) * (pxn * qxd - qxn * pxd),
{
    let a1 = pyn - sy * pyd;
    let b1 = pxn - sx * pxd;
    let a2 = qyn - sy * qyd;
    let b2 = qxn - sx * qxd;
    assert(pyn * qyd - qyn * pyd == a1 * qyd - a2 * pyd) by (nonlinear_arith)
        requires
            a1 == pyn - sy * pyd,
            a2 == qyn - sy * qyd,
    ;
    assert(pxn * qxd - qxn * pxd == b1 * qxd - b2 * pxd) by (nonlinear_arith)
        requires
            b1 == pxn - sx * pxd,
            b2 == qxn - sx * qxd,
    ;
    let m = dx * (pxd * qxd);
    let n = dy * (pyd * qyd);
    assert(m * (a1 * qyd - a2 * pyd) == m * (a1 * qyd) - m * (a2 * pyd)) by (nonlinear_arith);
    assert(m * (a1 * qyd) == dx * a1 * pxd * (qxd * qyd)) by (nonlinear_arith)
        requires
            m == dx * (pxd * qxd),
    ;
    assert(m * (a2 * pyd) == dx * a2 * qxd * (pxd * pyd)) by (nonlinear_arith)
        requires
            m == dx * (pxd * qxd),
    ;
    assert(dx * a1 * pxd * (qxd * qyd) == dy * b1 * pyd * (qxd * qyd));
    assert(dx * a2 * qxd * (pxd * pyd) == dy * b2 * qyd * (pxd * pyd));
    assert(n * (b1 * qxd) == dy * b1 * pyd * (qxd * qyd)) by (nonlinear_arith)
        requires
            n == dy * (pyd * qyd),
    ;
    assert(n * (b2 * pxd) == dy * b2 * qyd * (pxd * pyd)) by (nonlinear_arith)
        requires
            n == dy * (pyd * qyd),
    ;
    assert(n * (b1 * qxd - b2 * pxd) == n * (b1 * qxd) - n * (b2 * pxd)) by (nonlinear_arith);
}

/// Identical inputs determine the crossing point: any two rational points
/// that lie on both lines of a pair of segments whose directions are not
/// parallel denote the same pair of numbers. Together with the exact
/// contracts of the predicates and of the coincident-overlap cases, repeated
/// queries with the same segments always produce the same results.
pub proof fn lemma_crossing_point_unique(
    a: LineSegment,
    b: LineSegment,
    p: RatPoint,
    q: RatPoint,
)
    requires
        dir_cross(a, b) != 0,
        p.x.wf(),
        p.y.wf(),
        q.x.wf(),
        q.y.wf(),
        a.rat_on_line(p),
        b.rat_on_line(p),
        a.rat_on_line(q),
        b.rat_on_line(q),
    ensures
        p.x.same_value(q.x),
        p.y.same_value(q.y),
{
    let dxa = a.end.x - a.start.x;
    let dya = a.end.y - a.start.y;
    let dxb = b.end.x - b.start.x;
    let dyb = b.end.y - b.start.y;
    let d = dxa * dyb - dxb * dya;
    let s = p.x.den * q.x.den;
    let t = p.y.den * q.y.den;
    let uu = p.x.num * q.x.den - q.x.num * p.x.den;
    let vv = p.y.num * q.y.den - q.y.num * p.y.den;
    lemma_two_points_on_line(
        dxa,
        dya,
        a.start.x as int,
        a.start.y as int,
        p.x.num as int,
        p.x.den as int,
        p.y.num as int,
        p.y.den as int,
        q.x.num as int,
        q.x.den as int,
        q.y.num as int,
        q.y.den as int,
    );
    lemma_two_points_on_line(
        dxb,
        dyb,
        b.start.x as int,
        b.start.y as int,
        p.x.num as int,
        p.x.den as int,
        p.y.num as int,
        p.y.den as int,
        q.x.num as int,
        q.x.den as int,
        q.y.num as int,
        q.y.den as int,
    );
    assert(s > 0) by (nonlinear_arith)
        requires
            p.x.den > 0,
            q.x.den > 0,
            s == p.x.den * q.x.den,
    ;
    assert(t > 0) by (nonlinear_arith)
        requires
            p.y.den > 0,
            q.y.den > 0,
            t == p.y.den * q.y.den,
    ;
    // From the two applications: dxa * s * vv == dya * t * uu and
    // dxb * s * vv == dyb * t * uu. Cross-multiplying by the other line's
    // rise cancels the right-hand sides and leaves d * (s * vv) == 0.
    assert(dyb * (dxa * s * vv) == dxa * dyb * (s * vv)) by (nonlinear_arith);
    assert(dya * (dxb * s * vv) == dxb * dya * (s * vv)) by (nonlinear_arith);
    assert(dyb * (dya * t * uu) == dya * (dyb * t * uu)) by (nonlinear_arith);
    assert(dyb * (dxa * s * vv) == dyb * (dya * t * uu));
    assert(dya * (dxb * s * vv) == dya * (dyb * t * uu));
    assert(dxa * dyb * (s * vv) - dxb * dya * (s * vv) == d * (s * vv)) by (nonlinear_arith)
        requires
            d == dxa * dyb - dxb * dya,
    ;
    assert(d * (s * vv) == 0);
    assert(s * vv == 0) by (nonlinear_arith)
        requires
            d * (s * vv) == 0,
            d != 0,
    ;
    assert(vv == 0) by (nonlinear_arith)
        requires
            s * vv == 0,
            s > 0,
    ;
    assert(dxa * s * vv == 0) by (nonlinear_arith)
        requires
            vv == 0,
    ;
    assert(dxb * s * vv == 0) by (nonlinear_arith)
        requires
            vv == 0,
    ;
    if dya != 0 {
        assert(uu == 0) by (nonlinear_arith)
            requires
                dya * t * uu == 0,
                dya != 0,
                t > 0,
        ;
    } else {
        assert(dyb != 0) by (nonlinear_arith)
            requires
                d == dxa * dyb - dxb * dya,
                dya == 0,
                d != 0,
        ;
        assert(uu == 0) by (nonlinear_arith)
            requires
                dyb * t * uu == 0,
                dyb != 0,
                t > 0,
        ;
    }
}

/// An axis-aligned extent: the componentwise minimum and maximum corner of
/// some set of points.
#[derive(Copy, Clone, Debug, PartialEq, Eq, Structural)]
pub struct Bounds {
    pub low: Vec2,
    pub high: Vec2,
}

impl Bounds {
    /// Do the two extents overlap or touch? Inclusive on both ends, unlike
    /// the strict box-overlap test: extents that share a boundary count.
    pub fn bounding_box_collides_with(&self, b: &Bounds) -> (r: bool)
        ensures
            r == (self.low.x <= b.high.x && self.high.x >= b.low.x && self.low.y <= b.high.y
                && self.high.y >= b.low.y),
    {
        self.low.x <= b.high.x && self.high.x >= b.low.x && self.low.y <= b.high.y && self.high.y
            >= b.low.y
    }
}

/// The coordinate ranges of the two segments overlap or touch on both axes.
pub open spec fn bounds_touch(a: LineSegment, b: LineSegment) -> bool {
    &&& min(a.start.x as int, a.end.x as int) <= max(b.start.x as int, b.end.x as int)
    &&& max(a.start.x as int, a.end.x as int) >= min(b.start.x as int, b.end.x as int)
    &&& min(a.start.y as int, a.end.y as int) <= max(b.start.y as int, b.end.y as int)
    &&& max(a.start.y as int, a.end.y as int) >= min(b.start.y as int, b.end.y as int)
}

/// The cross product `(ax, ay) x (bx, by)`, exact, for components no larger
/// than a coordinate difference.
fn point_cross_product(ax: i64, ay: i64, bx: i64, by: i64) -> (r: i128)
    requires
        -coord_diff_bound() <= ax <= coord_diff_bound(),
        -coord_diff_bound() <= ay <= coord_diff_bound(),
        -coord_diff_bound() <= bx <= coord_diff_bound(),
        -coord_diff_bound() <= by <= coord_diff_bound(),
    ensures
        r == ax * by - bx * ay,
{
    proof {
        lemma_mul_bounds(ax as int, by as int, coord_diff_bound(), coord_diff_bound());
        lemma_mul_bounds(bx as int, ay as int, coord_diff_bound(), coord_diff_bound());
    }
    ax as i128 * by as i128 - bx as i128 * ay as i128
}

} // verus!
