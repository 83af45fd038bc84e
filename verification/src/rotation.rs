//! The rotation type: an orthogonal matrix of determinant one, of order two or
//! three, and what both orders share.

use vstd::prelude::*;
use crate::matrix::{Matrix2, Matrix3};
use crate::scalar::Real;

verus! {

/// A rotation, stored as its matrix `M` and nothing else.
///
/// Every constructor but [`RotationBase::from_matrix_unchecked`] builds the
/// matrix from a closed formula that is orthogonal with determinant one over
/// the real numbers. On a rounded scalar this holds up to rounding only, so it
/// is a convention of the type and no verified invariant.
#[derive(Clone, Copy, Debug)]
pub struct RotationBase<M> {
    matrix: M,
}

/// A rotation of the plane.
pub type Rotation2<N> = RotationBase<Matrix2<N>>;

/// A rotation of 3-space.
pub type Rotation3<N> = RotationBase<Matrix3<N>>;

impl<M> View for RotationBase<M> {
    type V = M;

    /// The matrix of the rotation.
    closed spec fn view(&self) -> M {
        self.matrix
    }
}

impl<M> RotationBase<M> {
    /// Takes `matrix` as a rotation without testing that it is one.
    pub fn from_matrix_unchecked(matrix: M) -> (r: Self)
        ensures
            r@ == matrix,
    {
        RotationBase { matrix }
    }

    /// The matrix of the rotation.
    pub fn matrix(&self) -> (r: &M)
        ensures
            *r == self@,
    {
        &self.matrix
    }

    /// The matrix of the rotation, by value.
    pub fn unwrap(self) -> (r: M)
        ensures
            r == self@,
    {
        self.matrix
    }
}

impl<N: Real> RotationBase<Matrix2<N>> {
    /// The rotation that moves nothing.
    pub fn identity() -> (r: Self)
        ensures
            r@ == Matrix2::<N>::identity_spec(),
    {
        Self::from_matrix_unchecked(Matrix2::identity())
    }

    /// The opposite rotation: the transpose of the matrix. The inverse of the
    /// result is `self` again, entry for entry.
    pub fn inverse(&self) -> (r: Self)
        ensures
            r@ == self@.transpose_spec(),
            r@.transpose_spec() == self@,
    {
        proof {
            self.matrix.lemma_transpose_involutive();
        }
        Self::from_matrix_unchecked(self.matrix.transpose())
    }

    /// The rotation `self` after `rhs`: the product of the two matrices.
    pub fn compose(&self, rhs: &Self) -> (r: Self)
        ensures
            r@ == self@.product_spec(rhs@),
    {
        Self::from_matrix_unchecked(self.matrix.product(&rhs.matrix))
    }
}

impl<N: Real> RotationBase<Matrix3<N>> {
    /// The rotation that moves nothing.
    pub fn identity() -> (r: Self)
        ensures
            r@ == Matrix3::<N>::identity_spec(),
    {
        Self::from_matrix_unchecked(Matrix3::identity())
    }

    /// The opposite rotation: the transpose of the matrix. The inverse of the
    /// result is `self` again, entry for entry.
    pub fn inverse(&self) -> (r: Self)
        ensures
            r@ == self@.transpose_spec(),
            r@.transpose_spec() == self@,
    {
        proof {
            self.matrix.lemma_transpose_involutive();
        }
        Self::from_matrix_unchecked(self.matrix.transpose())
    }

    /// The rotation `self` after `rhs`: the product of the two matrices.
    pub fn compose(&self, rhs: &Self) -> (r: Self)
        ensures
            r@ == self@.product_spec(rhs@),
    {
        Self::from_matrix_unchecked(self.matrix.product(&rhs.matrix))
    }
}

} // verus!
