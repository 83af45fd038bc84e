//! The scalar capability that the rotations are built on.

use vstd::prelude::*;

verus! {

/// A real scalar: the arithmetic, the trigonometry and the comparisons that a
/// rotation needs.
///
/// Each operation has a specification function that stands for its result, and
/// the executable method returns exactly that value. Nothing is said about what
/// the value is: a rounded scalar type obeys none of the field laws, so the
/// rotations are specified as formulas over these operations, evaluated in the
/// order written.
///
/// The contracts on the methods are obligations on whoever implements the
/// trait, and this crate implements it for no type. They ask two things: that
/// an operation is a function of its arguments alone, and that `zero()` is a
/// value for which `is_zero` holds. What is proved of the rotations holds for a
/// scalar type that meets them.
pub trait Real: Sized + Copy {
    /// The additive identity.
    spec fn zero_spec() -> Self;

    /// The multiplicative identity.
    spec fn one_spec() -> Self;

    /// The threshold under which a length counts as zero.
    spec fn default_epsilon_spec() -> Self;

    /// Whether `self` is the additive identity.
    spec fn is_zero_spec(self) -> bool;

    /// `self + rhs`.
    spec fn plus_spec(self, rhs: Self) -> Self;

    /// `self - rhs`.
    spec fn minus_spec(self, rhs: Self) -> Self;

    /// `self * rhs`.
    spec fn times_spec(self, rhs: Self) -> Self;

    /// `self / rhs`.
    spec fn over_spec(self, rhs: Self) -> Self;

    /// `-self`.
    spec fn negated_spec(self) -> Self;

    /// Whether `self < rhs`.
    spec fn less_spec(self, rhs: Self) -> bool;

    /// The sine of `self`, an angle in radians.
    spec fn sin_spec(self) -> Self;

    /// The cosine of `self`, an angle in radians.
    spec fn cos_spec(self) -> Self;

    /// The arc cosine of `self`.
    spec fn acos_spec(self) -> Self;

    /// The angle of the point `(x, self)`: the four-quadrant arc tangent of
    /// `self / x`.
    spec fn atan2_spec(self, x: Self) -> Self;

    /// The square root of `self`.
    spec fn sqrt_spec(self) -> Self;

    fn zero() -> (r: Self)
        ensures
            r == Self::zero_spec(),
            r.is_zero_spec(),
    ;

    fn one() -> (r: Self)
        ensures
            r == Self::one_spec(),
    ;

    fn default_epsilon() -> (r: Self)
        ensures
            r == Self::default_epsilon_spec(),
    ;

    fn is_zero(self) -> (r: bool)
        ensures
            r == self.is_zero_spec(),
    ;

    fn plus(self, rhs: Self) -> (r: Self)
        ensures
            r == self.plus_spec(rhs),
    ;

    fn minus(self, rhs: Self) -> (r: Self)
        ensures
            r == self.minus_spec(rhs),
    ;

    fn times(self, rhs: Self) -> (r: Self)
        ensures
            r == self.times_spec(rhs),
    ;

    fn over(self, rhs: Self) -> (r: Self)
        ensures
            r == self.over_spec(rhs),
    ;

    fn negated(self) -> (r: Self)
        ensures
            r == self.negated_spec(),
    ;

    fn less(self, rhs: Self) -> (r: bool)
        ensures
            r == self.less_spec(rhs),
    ;

    /// The sine and the cosine of `self`, in this order.
    fn sin_cos(self) -> (r: (Self, Self))
        ensures
            r.0 == self.sin_spec(),
            r.1 == self.cos_spec(),
    ;

    fn acos(self) -> (r: Self)
        ensures
            r == self.acos_spec(),
    ;

    fn atan2(self, x: Self) -> (r: Self)
        ensures
            r == self.atan2_spec(x),
    ;

    fn sqrt(self) -> (r: Self)
        ensures
            r == self.sqrt_spec(),
    ;
}

} // verus!
