use vstd::prelude::*;

verus! {

/// An ordered pair of integer coordinates.
///
/// A vector is a plain value: two vectors with equal components are
/// interchangeable, and nothing here mutates one in place.
#[derive(Copy, Clone, Debug, PartialEq, Eq, Structural)]
pub struct Vec2 {
    pub x: i32,
    pub y: i32,
}

impl Vec2 {
    pub fn new(x: i32, y: i32) -> (r: Vec2)
        ensures
            r.x == x,
            r.y == y,
    {
        Vec2 { x, y }
    }
}

} // verus!
