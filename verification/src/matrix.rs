//! Square matrices of order two and three, written out entry by entry.
//!
//! An entry `mRC` stands in row `R` and column `C`, both counted from one.

use vstd::prelude::*;
use crate::scalar::Real;

verus! {

/// A 2x2 matrix.
#[derive(Clone, Copy, Debug)]
pub struct Matrix2<N> {
    pub m11: N,
    pub m12: N,
    pub m21: N,
    pub m22: N,
}

/// A 3x3 matrix.
#[derive(Clone, Copy, Debug)]
pub struct Matrix3<N> {
    pub m11: N,
    pub m12: N,
    pub m13: N,
    pub m21: N,
    pub m22: N,
    pub m23: N,
    pub m31: N,
    pub m32: N,
    pub m33: N,
}

/// `a * b + c * d`, the entry of a 2x2 product.
pub open spec fn dot2<N: Real>(a: N, b: N, c: N, d: N) -> N {
    a.times_spec(b).plus_spec(c.times_spec(d))
}

/// `(a * b + c * d) + e * f`, the entry of a 3x3 product.
pub open spec fn dot3<N: Real>(a: N, b: N, c: N, d: N, e: N, f: N) -> N {
    a.times_spec(b).plus_spec(c.times_spec(d)).plus_spec(e.times_spec(f))
}

fn dot2_exec<N: Real>(a: N, b: N, c: N, d: N) -> (r: N)
    ensures
        r == dot2(a, b, c, d),
{
    a.times(b).plus(c.times(d))
}

fn dot3_exec<N: Real>(a: N, b: N, c: N, d: N, e: N, f: N) -> (r: N)
    ensures
        r == dot3(a, b, c, d, e, f),
{
    a.times(b).plus(c.times(d)).plus(e.times(f))
}

impl<N: Real> Matrix2<N> {
    /// The matrix with the given entries, row by row.
    pub fn new(m11: N, m12: N, m21: N, m22: N) -> (r: Self)
        ensures
            r == (Matrix2 { m11, m12, m21, m22 }),
    {
        Matrix2 { m11, m12, m21, m22 }
    }

    /// Ones on the diagonal, zeros elsewhere.
    pub open spec fn identity_spec() -> Self {
        Matrix2 { m11: N::one_spec(), m12: N::zero_spec(), m21: N::zero_spec(), m22: N::one_spec() }
    }

    /// Rows and columns exchanged.
    pub open spec fn transpose_spec(self) -> Self {
        Matrix2 { m11: self.m11, m12: self.m21, m21: self.m12, m22: self.m22 }
    }

    /// The matrix product `self * rhs`.
    pub open spec fn product_spec(self, rhs: Self) -> Self {
        Matrix2 {
            m11: dot2(self.m11, rhs.m11, self.m12, rhs.m21),
            m12: dot2(self.m11, rhs.m12, self.m12, rhs.m22),
            m21: dot2(self.m21, rhs.m11, self.m22, rhs.m21),
            m22: dot2(self.m21, rhs.m12, self.m22, rhs.m22),
        }
    }

    pub fn identity() -> (r: Self)
        ensures
            r == Self::identity_spec(),
    {
        Matrix2 { m11: N::one(), m12: N::zero(), m21: N::zero(), m22: N::one() }
    }

    pub fn transpose(&self) -> (r: Self)
        ensures
            r == self.transpose_spec(),
    {
        Matrix2 { m11: self.m11, m12: self.m21, m21: self.m12, m22: self.m22 }
    }

    pub fn product(&self, rhs: &Self) -> (r: Self)
        ensures
            r == self.product_spec(*rhs),
    {
        Matrix2 {
            m11: dot2_exec(self.m11, rhs.m11, self.m12, rhs.m21),
            m12: dot2_exec(self.m11, rhs.m12, self.m12, rhs.m22),
            m21: dot2_exec(self.m21, rhs.m11, self.m22, rhs.m21),
            m22: dot2_exec(self.m21, rhs.m12, self.m22, rhs.m22),
        }
    }

    /// Transposing twice gives the matrix back.
    pub proof fn lemma_transpose_involutive(self)
        ensures
            self.transpose_spec().transpose_spec() == self,
    {
    }
}

impl<N: Real> Matrix3<N> {
    /// The matrix with the given entries, row by row.
    pub fn new(m11: N, m12: N, m13: N, m21: N, m22: N, m23: N, m31: N, m32: N, m33: N) -> (r: Self)
        ensures
            r == (Matrix3 { m11, m12, m13, m21, m22, m23, m31, m32, m33 }),
    {
        Matrix3 { m11, m12, m13, m21, m22, m23, m31, m32, m33 }
    }

    /// `d` on the diagonal, zeros elsewhere.
    pub open spec fn diagonal_spec(d: N) -> Self {
        Matrix3 {
            m11: d,
            m12: N::zero_spec(),
            m13: N::zero_spec(),
            m21: N::zero_spec(),
            m22: d,
            m23: N::zero_spec(),
            m31: N::zero_spec(),
            m32: N::zero_spec(),
            m33: d,
        }
    }

    /// Ones on the diagonal, zeros elsewhere.
    pub open spec fn identity_spec() -> Self {
        Self::diagonal_spec(N::one_spec())
    }

    /// Rows and columns exchanged.
    pub open spec fn transpose_spec(self) -> Self {
        Matrix3 {
            m11: self.m11,
            m12: self.m21,
            m13: self.m31,
            m21: self.m12,
            m22: self.m22,
            m23: self.m32,
            m31: self.m13,
            m32: self.m23,
            m33: self.m33,
        }
    }

    /// The matrix product `self * rhs`.
    pub open spec fn product_spec(self, rhs: Self) -> Self {
        Matrix3 {
            m11: dot3(self.m11, rhs.m11, self.m12, rhs.m21, self.m13, rhs.m31),
            m12: dot3(self.m11, rhs.m12, self.m12, rhs.m22, self.m13, rhs.m32),
            m13: dot3(self.m11, rhs.m13, self.m12, rhs.m23, self.m13, rhs.m33),
            m21: dot3(self.m21, rhs.m11, self.m22, rhs.m21, self.m23, rhs.m31),
            m22: dot3(self.m21, rhs.m12, self.m22, rhs.m22, self.m23, rhs.m32),
            m23: dot3(self.m21, rhs.m13, self.m22, rhs.m23, self.m23, rhs.m33),
            m31: dot3(self.m31, rhs.m11, self.m32, rhs.m21, self.m33, rhs.m31),
            m32: dot3(self.m31, rhs.m12, self.m32, rhs.m22, self.m33, rhs.m32),
            m33: dot3(self.m31, rhs.m13, self.m32, rhs.m23, self.m33, rhs.m33),
        }
    }

    /// The product `self * v` of the matrix and a column vector.
    pub open spec fn apply_spec(self, v: crate::vector::Vector3<N>) -> crate::vector::Vector3<N> {
        crate::vector::Vector3 {
            x: dot3(self.m11, v.x, self.m12, v.y, self.m13, v.z),
            y: dot3(self.m21, v.x, self.m22, v.y, self.m23, v.z),
            z: dot3(self.m31, v.x, self.m32, v.y, self.m33, v.z),
        }
    }

    pub fn from_diagonal_element(d: N) -> (r: Self)
        ensures
            r == Self::diagonal_spec(d),
    {
        let z = N::zero();
        Matrix3 { m11: d, m12: z, m13: z, m21: z, m22: d, m23: z, m31: z, m32: z, m33: d }
    }

    pub fn identity() -> (r: Self)
        ensures
            r == Self::identity_spec(),
    {
        Self::from_diagonal_element(N::one())
    }

    pub fn transpose(&self) -> (r: Self)
        ensures
            r == self.transpose_spec(),
    {
        Matrix3 {
            m11: self.m11,
            m12: self.m21,
            m13: self.m31,
            m21: self.m12,
            m22: self.m22,
            m23: self.m32,
            m31: self.m13,
            m32: self.m23,
            m33: self.m33,
        }
    }

    pub fn product(&self, rhs: &Self) -> (r: Self)
        ensures
            r == self.product_spec(*rhs),
    {
        Matrix3 {
            m11: dot3_exec(self.m11, rhs.m11, self.m12, rhs.m21, self.m13, rhs.m31),
            m12: dot3_exec(self.m11, rhs.m12, self.m12, rhs.m22, self.m13, rhs.m32),
            m13: dot3_exec(self.m11, rhs.m13, self.m12, rhs.m23, self.m13, rhs.m33),
            m21: dot3_exec(self.m21, rhs.m11, self.m22, rhs.m21, self.m23, rhs.m31),
            m22: dot3_exec(self.m21, rhs.m12, self.m22, rhs.m22, self.m23, rhs.m32),
            m23: dot3_exec(self.m21, rhs.m13, self.m22, rhs.m23, self.m23, rhs.m33),
            m31: dot3_exec(self.m31, rhs.m11, self.m32, rhs.m21, self.m33, rhs.m31),
            m32: dot3_exec(self.m31, rhs.m12, self.m32, rhs.m22, self.m33, rhs.m32),
            m33: dot3_exec(self.m31, rhs.m13, self.m32, rhs.m23, self.m33, rhs.m33),
        }
    }

    pub fn apply(&self, v: &crate::vector::Vector3<N>) -> (r: crate::vector::Vector3<N>)
        ensures
            r == self.apply_spec(*v),
    {
        crate::vector::Vector3 {
            x: dot3_exec(self.m11, v.x, self.m12, v.y, self.m13, v.z),
            y: dot3_exec(self.m21, v.x, self.m22, v.y, self.m23, v.z),
            z: dot3_exec(self.m31, v.x, self.m32, v.y, self.m33, v.z),
        }
    }

    /// Transposing twice gives the matrix back.
    pub proof fn lemma_transpose_involutive(self)
        ensures
            self.transpose_spec().transpose_spec() == self,
    {
    }
}

} // verus!
