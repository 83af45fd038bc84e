//! Unit complex numbers: a rotation of the plane held as its cosine and sine.

use vstd::prelude::*;
use crate::matrix::Matrix2;
use crate::rotation::RotationBase;
use crate::scalar::Real;
use crate::vector::Vector2;

verus! {

/// A complex number of modulus one, `re + i im`: the rotation of the plane
/// whose cosine is `re` and whose sine is `im`.
#[derive(Clone, Copy, Debug)]
pub struct UnitComplex<N> {
    pub re: N,
    pub im: N,
}

/// The signed angle from `na` to `nb`, two directions of length one,
/// multiplied by `s`.
pub open spec fn scaled_angle_between<N: Real>(na: Vector2<N>, nb: Vector2<N>, s: N) -> N {
    na.perp_spec(nb).atan2_spec(na.dot_spec(nb)).times_spec(s)
}

impl<N: Real> UnitComplex<N> {
    /// The number one, which turns nothing.
    pub open spec fn identity_spec() -> Self {
        UnitComplex { re: N::one_spec(), im: N::zero_spec() }
    }

    /// The unit complex number of argument `angle`.
    pub open spec fn from_angle_spec(angle: N) -> Self {
        UnitComplex { re: angle.cos_spec(), im: angle.sin_spec() }
    }

    /// The rotation that turns the direction of `a` into that of `b`, with its
    /// angle multiplied by `s`; the identity where `a` or `b` has no
    /// direction.
    pub open spec fn scaled_rotation_between_spec(a: Vector2<N>, b: Vector2<N>, s: N) -> Self {
        match (a.try_normalize_spec(N::zero_spec()), b.try_normalize_spec(N::zero_spec())) {
            (Some(na), Some(nb)) => Self::from_angle_spec(scaled_angle_between(na, nb, s)),
            _ => Self::identity_spec(),
        }
    }

    /// The matrix `[[re, -im], [im, re]]`.
    pub open spec fn matrix_spec(self) -> Matrix2<N> {
        Matrix2 { m11: self.re, m12: self.im.negated_spec(), m21: self.im, m22: self.re }
    }

    pub fn identity() -> (r: Self)
        ensures
            r == Self::identity_spec(),
    {
        UnitComplex { re: N::one(), im: N::zero() }
    }

    pub fn from_angle(angle: N) -> (r: Self)
        ensures
            r == Self::from_angle_spec(angle),
    {
        let (sin, cos) = angle.sin_cos();
        UnitComplex { re: cos, im: sin }
    }

    /// The rotation that turns the direction of `a` into that of `b`.
    pub fn rotation_between(a: &Vector2<N>, b: &Vector2<N>) -> (r: Self)
        ensures
            r == Self::scaled_rotation_between_spec(*a, *b, N::one_spec()),
    {
        Self::scaled_rotation_between(a, b, N::one())
    }

    /// The rotation that turns the direction of `a` into that of `b`, with its
    /// angle multiplied by `s`.
    pub fn scaled_rotation_between(a: &Vector2<N>, b: &Vector2<N>, s: N) -> (r: Self)
        ensures
            r == Self::scaled_rotation_between_spec(*a, *b, s),
    {
        match (a.try_normalize(N::zero()), b.try_normalize(N::zero())) {
            (Some(na), Some(nb)) => {
                let sang = na.perp(&nb);
                let cang = na.dot(&nb);
                Self::from_angle(sang.atan2(cang).times(s))
            },
            _ => Self::identity(),
        }
    }

    /// The same rotation as a matrix.
    pub fn to_rotation_matrix(&self) -> (r: RotationBase<Matrix2<N>>)
        ensures
            r@ == self.matrix_spec(),
    {
        RotationBase::from_matrix_unchecked(
            Matrix2::new(self.re, self.im.negated(), self.im, self.re),
        )
    }
}

} // verus!
