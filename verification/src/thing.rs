use vstd::prelude::*;

use crate::physics::intersection_result_ok;
use crate::physics::AxisAlignedBoundingBox;
use crate::physics::Intersection;
use crate::physics::LineSegment;
use crate::vec2::Vec2;

verus! {

/// Which edge of a box produced an intersection.
#[derive(Copy, Clone, Debug, PartialEq, Eq, Structural)]
pub enum Side {
    Top,
    Right,
    Bottom,
    Left,
}

/// The value fits an `i32` coordinate.
pub open spec fn coord_in_range(v: int) -> bool {
    i32::MIN <= v <= i32::MAX
}

/// An axis-aligned box given by its center and half-extents, remembering
/// where it was one frame earlier for swept collision use. Its four edges
/// can be intersected against another box's edges or an arbitrary segment.
#[derive(Copy, Clone, Debug, PartialEq, Eq, Structural)]
pub struct Thing {
    pub center: Vec2,
    pub previous_center: Vec2,
    pub size: Vec2,
    pub half_size: Vec2,
}

impl Thing {
    /// Well-formed: the half-extents are exactly half the extents and
    /// non-negative, and all corners, current and previous, stay in
    /// coordinate range.
    pub open spec fn wf(self) -> bool {
        &&& self.size.x == 2 * self.half_size.x
        &&& self.size.y == 2 * self.half_size.y
        &&& self.half_size.x >= 0
        &&& self.half_size.y >= 0
        &&& coord_in_range(self.center.x - self.half_size.x)
        &&& coord_in_range(self.center.x + self.half_size.x)
        &&& coord_in_range(self.center.y - self.half_size.y)
        &&& coord_in_range(self.center.y + self.half_size.y)
        &&& coord_in_range(self.previous_center.x - self.half_size.x)
        &&& coord_in_range(self.previous_center.x + self.half_size.x)
        &&& coord_in_range(self.previous_center.y - self.half_size.y)
        &&& coord_in_range(self.previous_center.y + self.half_size.y)
    }

    /// Place a box of the given even, non-negative extents at `center`; the
    /// previous position starts out equal to the current one.
    pub fn new(center: Vec2, size: Vec2) -> (r: Thing)
        requires
            size.x >= 0,
            size.y >= 0,
            size.x % 2 == 0,
            size.y % 2 == 0,
            coord_in_range(center.x - size.x / 2),
            coord_in_range(center.x + size.x / 2),
            coord_in_range(center.y - size.y / 2),
            coord_in_range(center.y + size.y / 2),
        ensures
            r.center == center,
            r.previous_center == center,
            r.size == size,
            r.half_size.x == size.x / 2,
            r.half_size.y == size.y / 2,
            r.wf(),
    {
        Thing {
            center,
            previous_center: center,
            size,
            half_size: Vec2 { x: size.x / 2, y: size.y / 2 },
        }
    }

    /// Move the box by `offset`, remembering where it was.
    pub fn offset(&mut self, offset: Vec2)
        requires
            old(self).wf(),
            coord_in_range(old(self).center.x + offset.x - old(self).half_size.x),
            coord_in_range(old(self).center.x + offset.x + old(self).half_size.x),
            coord_in_range(old(self).center.y + offset.y - old(self).half_size.y),
            coord_in_range(old(self).center.y + offset.y + old(self).half_size.y),
        ensures
            final(self).center.x == old(self).center.x + offset.x,
            final(self).center.y == old(self).center.y + offset.y,
            final(self).previous_center == old(self).center,
            final(self).size == old(self).size,
            final(self).half_size == old(self).half_size,
            final(self).wf(),
    {
        self.previous_center = self.center;
        self.center = Vec2 { x: self.center.x + offset.x, y: self.center.y + offset.y };
    }

    /// Teleport the box to `wh` without touching the previous position.
    pub fn put(&mut self, wh: Vec2)
        requires
            old(self).wf(),
            coord_in_range(wh.x - old(self).half_size.x),
            coord_in_range(wh.x + old(self).half_size.x),
            coord_in_range(wh.y - old(self).half_size.y),
            coord_in_range(wh.y + old(self).half_size.y),
        ensures
            final(self).center == wh,
            final(self).previous_center == old(self).previous_center,
            final(self).size == old(self).size,
            final(self).half_size == old(self).half_size,
            final(self).wf(),
    {
        self.center = wh;
    }

    pub open spec fn spec_bottom_left(self) -> Vec2 {
        Vec2 {
            x: (self.center.x - self.half_size.x) as i32,
            y: (self.center.y - self.half_size.y) as i32,
        }
    }

    pub open spec fn spec_top_right(self) -> Vec2 {
        Vec2 {
            x: (self.center.x + self.half_size.x) as i32,
            y: (self.center.y + self.half_size.y) as i32,
        }
    }

    pub open spec fn spec_bottom_right(self) -> Vec2 {
        Vec2 {
            x: (self.center.x + self.half_size.x) as i32,
            y: (self.center.y - self.half_size.y) as i32,
        }
    }

    pub open spec fn spec_top_left(self) -> Vec2 {
        Vec2 {
            x: (self.center.x - self.half_size.x) as i32,
            y: (self.center.y + self.half_size.y) as i32,
        }
    }

    /// The top edge, left to right.
    pub open spec fn top_edge(self) -> LineSegment {
        LineSegment { start: self.spec_top_left(), end: self.spec_top_right() }
    }

    /// The right edge, top to bottom.
    pub open spec fn right_edge(self) -> LineSegment {
        LineSegment { start: self.spec_top_right(), end: self.spec_bottom_right() }
    }

    /// The bottom edge, left to right.
    pub open spec fn bottom_edge(self) -> LineSegment {
        LineSegment { start: self.spec_bottom_left(), end: self.spec_bottom_right() }
    }

    /// The left edge, top to bottom.
    pub open spec fn left_edge(self) -> LineSegment {
        LineSegment { start: self.spec_top_left(), end: self.spec_bottom_left() }
    }

    pub fn top(&self) -> (r: LineSegment)
        requires
            self.wf(),
        ensures
            r == self.top_edge(),
    {
        LineSegment::new(
            Vec2::new(self.center.x - self.half_size.x, self.center.y + self.half_size.y),
            Vec2::new(self.center.x + self.half_size.x, self.center.y + self.half_size.y),
        )
    }

    pub fn right(&self) -> (r: LineSegment)
        requires
            self.wf(),
        ensures
            r == self.right_edge(),
    {
        LineSegment::new(
            Vec2::new(self.center.x + self.half_size.x, self.center.y + self.half_size.y),
            Vec2::new(self.center.x + self.half_size.x, self.center.y - self.half_size.y),
        )
    }

    pub fn bottom(&self) -> (r: LineSegment)
        requires
            self.wf(),
        ensures
            r == self.bottom_edge(),
    {
        LineSegment::new(
            Vec2::new(self.center.x - self.half_size.x, self.center.y - self.half_size.y),
            Vec2::new(self.center.x + self.half_size.x, self.center.y - self.half_size.y),
        )
    }

    pub fn left(&self) -> (r: LineSegment)
        requires
            self.wf(),
        ensures
            r == self.left_edge(),
    {
        LineSegment::new(
            Vec2::new(self.center.x - self.half_size.x, self.center.y + self.half_size.y),
            Vec2::new(self.center.x - self.half_size.x, self.center.y - self.half_size.y),
        )
    }

    /// The edge of this box tagged by `side`.
    pub open spec fn edge_of(self, side: Side) -> LineSegment {
        match side {
            Side::Top => self.top_edge(),
            Side::Right => self.right_edge(),
            Side::Bottom => self.bottom_edge(),
            Side::Left => self.left_edge(),
        }
    }

    /// `e` intersects at least one of the four edges of `b`.
    pub open spec fn edge_hits_any(e: LineSegment, b: Thing) -> bool {
        ||| e.spec_intersects(b.top_edge())
        ||| e.spec_intersects(b.right_edge())
        ||| e.spec_intersects(b.bottom_edge())
        ||| e.spec_intersects(b.left_edge())
    }

    /// For each edge of this box, in the order top, right, bottom, left,
    /// whether it intersects any edge of `b`.
    pub fn edge_intersections(&self, b: &Thing) -> (r: Vec<bool>)
        requires
            self.wf(),
            b.wf(),
        ensures
            r@.len() == 4,
            r@[0] == Self::edge_hits_any(self.top_edge(), *b),
            r@[1] == Self::edge_hits_any(self.right_edge(), *b),
            r@[2] == Self::edge_hits_any(self.bottom_edge(), *b),
            r@[3] == Self::edge_hits_any(self.left_edge(), *b),
    {
        let b_top = b.top();
        let b_right = b.right();
        let b_bottom = b.bottom();
        let b_left = b.left();

        let mut ret: Vec<bool> = Vec::new();
        let top = self.top();
        ret.push(
            top.intersects_with(&b_top) || top.intersects_with(&b_right) || top.intersects_with(
                &b_bottom,
            ) || top.intersects_with(&b_left),
        );
        let right = self.right();
        ret.push(
            right.intersects_with(&b_top) || right.intersects_with(&b_right)
                || right.intersects_with(&b_bottom) || right.intersects_with(&b_left),
        );
        let bottom = self.bottom();
        ret.push(
            bottom.intersects_with(&b_top) || bottom.intersects_with(&b_right)
                || bottom.intersects_with(&b_bottom) || bottom.intersects_with(&b_left),
        );
        let left = self.left();
        ret.push(
            left.intersects_with(&b_top) || left.intersects_with(&b_right) || left.intersects_with(
                &b_bottom,
            ) || left.intersects_with(&b_left),
        );
        ret
    }

    /// The sides of this box, in the order top, right, bottom, left, whose
    /// edge intersects `seg`.
    pub open spec fn hit_sides(self, seg: LineSegment) -> Seq<Side> {
        (if self.top_edge().spec_intersects(seg) {
            seq![Side::Top]
        } else {
            Seq::empty()
        }) + (if self.right_edge().spec_intersects(seg) {
            seq![Side::Right]
        } else {
            Seq::empty()
        }) + (if self.bottom_edge().spec_intersects(seg) {
            seq![Side::Bottom]
        } else {
            Seq::empty()
        }) + (if self.left_edge().spec_intersects(seg) {
            seq![Side::Left]
        } else {
            Seq::empty()
        })
    }

    /// Intersect `seg` against each edge of this box, in the order top,
    /// right, bottom, left, and report, for each edge that `seg` meets,
    /// which side it was together with the exact intersection.
    pub fn intersect_segment(&self, seg: &LineSegment) -> (r: Vec<(Side, Intersection)>)
        requires
            self.wf(),
        ensures
            r@.len() == self.hit_sides(*seg).len(),
            forall|i: int|
                0 <= i < r@.len() ==> (#[trigger] r@[i]).0 == self.hit_sides(*seg)[i]
                    && intersection_result_ok(self.edge_of(r@[i].0), *seg, r@[i].1),
    {
        let mut ret: Vec<(Side, Intersection)> = Vec::new();

        let top = self.top();
        if top.intersects_with(seg) {
            ret.push((Side::Top, top.calculate_intersection_point(seg)));
        }
        let right = self.right();
        if right.intersects_with(seg) {
            ret.push((Side::Right, right.calculate_intersection_point(seg)));
        }
        let bottom = self.bottom();
        if bottom.intersects_with(seg) {
            ret.push((Side::Bottom, bottom.calculate_intersection_point(seg)));
        }
        let left = self.left();
        if left.intersects_with(seg) {
            ret.push((Side::Left, left.calculate_intersection_point(seg)));
        }
        ret
    }

    pub fn topright(&self) -> (r: Vec2)
        requires
            self.wf(),
        ensures
            r == self.spec_top_right(),
    {
        Vec2::new(self.center.x + self.half_size.x, self.center.y + self.half_size.y)
    }

    pub fn topleft(&self) -> (r: Vec2)
        requires
            self.wf(),
        ensures
            r == self.spec_top_left(),
    {
        Vec2::new(self.center.x - self.half_size.x, self.center.y + self.half_size.y)
    }

    pub fn bottomright(&self) -> (r: Vec2)
        requires
            self.wf(),
        ensures
            r == self.spec_bottom_right(),
    {
        Vec2::new(self.center.x + self.half_size.x, self.center.y - self.half_size.y)
    }

    pub fn bottomleft(&self) -> (r: Vec2)
        requires
            self.wf(),
        ensures
            r == self.spec_bottom_left(),
    {
        Vec2::new(self.center.x - self.half_size.x, self.center.y - self.half_size.y)
    }
}

impl AxisAlignedBoundingBox for Thing {
    open spec fn wf(&self) -> bool {
        Thing::wf(*self)
    }

    open spec fn bottom_left_spec(&self) -> Vec2 {
        self.spec_bottom_left()
    }

    open spec fn top_right_spec(&self) -> Vec2 {
        self.spec_top_right()
    }

    open spec fn previous_bottom_left_spec(&self) -> Vec2 {
        Vec2 {
            x: (self.previous_center.x - self.half_size.x) as i32,
            y: (self.previous_center.y - self.half_size.y) as i32,
        }
    }

    open spec fn previous_top_rght_spec(&self) -> Vec2 {
        Vec2 {
            x: (self.previous_center.x + self.half_size.x) as i32,
            y: (self.previous_center.y + self.half_size.y) as i32,
        }
    }

    fn bottom_left(&self) -> (r: Vec2) {
        Vec2::new(self.center.x - self.half_size.x, self.center.y - self.half_size.y)
    }

    fn top_right(&self) -> (r: Vec2) {
        Vec2::new(self.center.x + self.half_size.x, self.center.y + self.half_size.y)
    }

    fn previous_bottom_left(&self) -> (r: Vec2) {
        Vec2::new(
            self.previous_center.x - self.half_size.x,
            self.previous_center.y - self.half_size.y,
        )
    }

    fn previous_top_rght(&self) -> (r: Vec2) {
        Vec2::new(
            self.previous_center.x + self.half_size.x,
            self.previous_center.y + self.half_size.y,
        )
    }
}

} // verus!
