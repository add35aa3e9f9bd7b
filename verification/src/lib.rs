//! Narrow-phase 2-D collision checking on an integer coordinate grid.
//!
//! The crate offers two collaborating components, both pure:
//!
//! * an axis-aligned bounding-box checker ([`physics::aabb_check`]), which
//!   decides whether two boxes overlap on both axes, and
//! * a line-segment intersector ([`physics::LineSegment`]), which decides
//!   whether two finite segments touch or cross and, when they do, computes
//!   the exact intersection: a single point with rational coordinates, or a
//!   collinear overlapping sub-segment.
//!
//! Coordinates are `i32` values, so every slope, cross product and
//! intersection point is an exact rational number and every predicate is
//! decided exactly; see [`rational::Rational`].
//!
//! [`thing::Thing`] composes the two: a box given by a center and half-extents
//! whose four edges can be intersected against another box or an arbitrary
//! segment.

pub mod physics;
pub mod rational;
pub mod size;
pub mod thing;
pub mod vec2;
