//! Rotations of the plane: one angle, and the matrix
//! `[[cos, -sin], [sin, cos]]` that it stands for.

use vstd::prelude::*;
use crate::complex::UnitComplex;
use crate::matrix::Matrix2;
use crate::rotation::RotationBase;
use crate::scalar::Real;
use crate::vector::{Vector1, Vector2};

verus! {

/// The matrix of the rotation by `angle` radians, counter-clockwise.
pub open spec fn angle_matrix<N: Real>(angle: N) -> Matrix2<N> {
    Matrix2 {
        m11: angle.cos_spec(),
        m12: angle.sin_spec().negated_spec(),
        m21: angle.sin_spec(),
        m22: angle.cos_spec(),
    }
}

/// The angle of the rotation `m`: that of the point `(m11, m21)`, the image of
/// the first axis.
pub open spec fn angle_of<N: Real>(m: Matrix2<N>) -> N {
    m.m21.atan2_spec(m.m11)
}

/// The matrix of the rotation that turns the direction of `a` into that of
/// `b`, with its angle multiplied by `s`.
pub open spec fn between_matrix<N: Real>(a: Vector2<N>, b: Vector2<N>, s: N) -> Matrix2<N> {
    UnitComplex::scaled_rotation_between_spec(a, b, s).matrix_spec()
}

impl<N: Real> RotationBase<Matrix2<N>> {
    /// The rotation by `angle` radians.
    pub fn new(angle: N) -> (r: Self)
        ensures
            r@ == angle_matrix(angle),
    {
        let (sia, coa) = angle.sin_cos();
        Self::from_matrix_unchecked(Matrix2::new(coa, sia.negated(), sia, coa))
    }

    /// The rotation by the angle that `axisangle` holds.
    pub fn from_scaled_axis(axisangle: Vector1<N>) -> (r: Self)
        ensures
            r@ == angle_matrix(axisangle.x),
    {
        Self::new(axisangle.x)
    }

    /// The smallest rotation that turns the direction of `a` into that of `b`;
    /// the identity where `a` or `b` has no direction.
    pub fn rotation_between(a: &Vector2<N>, b: &Vector2<N>) -> (r: Self)
        ensures
            r@ == between_matrix(*a, *b, N::one_spec()),
    {
        UnitComplex::rotation_between(a, b).to_rotation_matrix()
    }

    /// The smallest rotation that turns the direction of `a` into that of `b`,
    /// with its angle multiplied by `s`.
    pub fn scaled_rotation_between(a: &Vector2<N>, b: &Vector2<N>, s: N) -> (r: Self)
        ensures
            r@ == between_matrix(*a, *b, s),
    {
        UnitComplex::scaled_rotation_between(a, b, s).to_rotation_matrix()
    }

    /// The angle of the rotation, in radians.
    pub fn angle(&self) -> (r: N)
        ensures
            r == angle_of(self@),
    {
        let m = self.matrix();
        m.m21.atan2(m.m11)
    }

    /// The angle of the rotation that takes `self` to `other`.
    pub fn angle_to(&self, other: &Self) -> (r: N)
        ensures
            r == angle_of(other@.product_spec(self@.transpose_spec())),
    {
        self.rotation_to(other).angle()
    }

    /// The rotation that takes `self` to `other`: `other` after the inverse of
    /// `self`.
    pub fn rotation_to(&self, other: &Self) -> (r: Self)
        ensures
            r@ == other@.product_spec(self@.transpose_spec()),
    {
        other.compose(&self.inverse())
    }

    /// The rotation by `n` times the angle of `self`.
    pub fn powf(&self, n: N) -> (r: Self)
        ensures
            r@ == angle_matrix(angle_of(self@).times_spec(n)),
    {
        Self::new(self.angle().times(n))
    }

    /// The angle of the rotation as a vector of one component.
    pub fn scaled_axis(&self) -> (r: Vector1<N>)
        ensures
            r.x == angle_of(self@),
    {
        Vector1::new(self.angle())
    }
}

} // verus!
