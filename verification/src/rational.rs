use vstd::prelude::*;

verus! {

/// An exact rational number, kept as a signed numerator over a positive
/// denominator. Fractions are not reduced: two values are the same number
/// when they cross-multiply equal, see [`Rational::same_value`].
#[derive(Copy, Clone, Debug, PartialEq, Eq, Structural)]
pub struct Rational {
    pub num: i128,
    pub den: i128,
}

impl Rational {
    /// A well-formed rational keeps its denominator positive, so that the
    /// sign of the number is the sign of the numerator.
    pub open spec fn wf(self) -> bool {
        self.den > 0
    }

    /// `self` and `other` denote the same number.
    pub open spec fn same_value(self, other: Rational) -> bool {
        self.num * other.den == other.num * self.den
    }

    pub fn from_int(v: i32) -> (r: Rational)
        ensures
            r.num == v,
            r.den == 1,
            r.wf(),
    {
        Rational { num: v as i128, den: 1 }
    }
}

} // verus!
