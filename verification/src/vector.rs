//! Column vectors of one, two and three components, and unit-length wrappers.

use vstd::prelude::*;
use crate::scalar::Real;

verus! {

/// A vector of one component.
#[derive(Clone, Copy, Debug)]
pub struct Vector1<N> {
    pub x: N,
}

/// A vector of the plane.
#[derive(Clone, Copy, Debug)]
pub struct Vector2<N> {
    pub x: N,
    pub y: N,
}

/// A vector of 3-space.
#[derive(Clone, Copy, Debug)]
pub struct Vector3<N> {
    pub x: N,
    pub y: N,
    pub z: N,
}

/// A value that is meant to have length one.
///
/// The wrapper records an intent: on a rounded scalar the length of a
/// normalized vector is one only up to rounding, so no invariant is attached.
#[derive(Clone, Copy, Debug)]
pub struct Unit<T> {
    pub value: T,
}

impl<T> Unit<T> {
    /// Wraps `value` without looking at its length.
    pub fn new_unchecked(value: T) -> (r: Self)
        ensures
            r.value == value,
    {
        Unit { value }
    }

    /// The wrapped value.
    pub fn unwrap(self) -> (r: T)
        ensures
            r == self.value,
    {
        self.value
    }

    /// A reference to the wrapped value.
    pub fn as_ref(&self) -> (r: &T)
        ensures
            *r == self.value,
    {
        &self.value
    }
}

impl<N: Real> Vector1<N> {
    pub fn new(x: N) -> (r: Self)
        ensures
            r == (Vector1 { x }),
    {
        Vector1 { x }
    }
}

impl<N: Real> Vector2<N> {
    pub fn new(x: N, y: N) -> (r: Self)
        ensures
            r == (Vector2 { x, y }),
    {
        Vector2 { x, y }
    }

    /// `x * x' + y * y'`.
    pub open spec fn dot_spec(self, rhs: Self) -> N {
        self.x.times_spec(rhs.x).plus_spec(self.y.times_spec(rhs.y))
    }

    /// `x * y' - y * x'`: the signed area spanned by `self` and `rhs`.
    pub open spec fn perp_spec(self, rhs: Self) -> N {
        self.x.times_spec(rhs.y).minus_spec(self.y.times_spec(rhs.x))
    }

    /// The length: the square root of `self . self`.
    pub open spec fn norm_spec(self) -> N {
        self.dot_spec(self).sqrt_spec()
    }

    /// Each component divided by `s`.
    pub open spec fn unscale_spec(self, s: N) -> Self {
        Vector2 { x: self.x.over_spec(s), y: self.y.over_spec(s) }
    }

    /// `self` divided by its length where `min_norm` is less than the length,
    /// and nothing otherwise.
    pub open spec fn try_normalize_spec(self, min_norm: N) -> Option<Self> {
        if min_norm.less_spec(self.norm_spec()) {
            Some(self.unscale_spec(self.norm_spec()))
        } else {
            None
        }
    }

    pub fn dot(&self, rhs: &Self) -> (r: N)
        ensures
            r == self.dot_spec(*rhs),
    {
        self.x.times(rhs.x).plus(self.y.times(rhs.y))
    }

    pub fn perp(&self, rhs: &Self) -> (r: N)
        ensures
            r == self.perp_spec(*rhs),
    {
        self.x.times(rhs.y).minus(self.y.times(rhs.x))
    }

    pub fn norm(&self) -> (r: N)
        ensures
            r == self.norm_spec(),
    {
        self.dot(self).sqrt()
    }

    pub fn try_normalize(&self, min_norm: N) -> (r: Option<Self>)
        ensures
            r == self.try_normalize_spec(min_norm),
    {
        let n = self.norm();
        if min_norm.less(n) {
            Some(Vector2 { x: self.x.over(n), y: self.y.over(n) })
        } else {
            None
        }
    }
}

impl<N: Real> Vector3<N> {
    pub fn new(x: N, y: N, z: N) -> (r: Self)
        ensures
            r == (Vector3 { x, y, z }),
    {
        Vector3 { x, y, z }
    }

    /// The vector whose components are all zero.
    pub open spec fn zero_spec() -> Self {
        Vector3 { x: N::zero_spec(), y: N::zero_spec(), z: N::zero_spec() }
    }

    /// `(x * x' + y * y') + z * z'`.
    pub open spec fn dot_spec(self, rhs: Self) -> N {
        self.x.times_spec(rhs.x).plus_spec(self.y.times_spec(rhs.y)).plus_spec(
            self.z.times_spec(rhs.z),
        )
    }

    /// The cross product `self x rhs`, right-handed.
    pub open spec fn cross_spec(self, rhs: Self) -> Self {
        Vector3 {
            x: self.y.times_spec(rhs.z).minus_spec(self.z.times_spec(rhs.y)),
            y: self.z.times_spec(rhs.x).minus_spec(self.x.times_spec(rhs.z)),
            z: self.x.times_spec(rhs.y).minus_spec(self.y.times_spec(rhs.x)),
        }
    }

    /// The length: the square root of `self . self`.
    pub open spec fn norm_spec(self) -> N {
        self.dot_spec(self).sqrt_spec()
    }

    /// Each component negated.
    pub open spec fn neg_spec(self) -> Self {
        Vector3 { x: self.x.negated_spec(), y: self.y.negated_spec(), z: self.z.negated_spec() }
    }

    /// Each component multiplied by `s`.
    pub open spec fn scale_spec(self, s: N) -> Self {
        Vector3 { x: self.x.times_spec(s), y: self.y.times_spec(s), z: self.z.times_spec(s) }
    }

    /// Each component divided by `s`.
    pub open spec fn unscale_spec(self, s: N) -> Self {
        Vector3 { x: self.x.over_spec(s), y: self.y.over_spec(s), z: self.z.over_spec(s) }
    }

    /// `self` divided by its length, whatever the length is.
    pub open spec fn normalize_spec(self) -> Self {
        self.unscale_spec(self.norm_spec())
    }

    /// `self` divided by its length where `min_norm` is less than the length,
    /// and nothing otherwise.
    pub open spec fn try_normalize_spec(self, min_norm: N) -> Option<Self> {
        if min_norm.less_spec(self.norm_spec()) {
            Some(self.normalize_spec())
        } else {
            None
        }
    }

    pub fn zero() -> (r: Self)
        ensures
            r == Self::zero_spec(),
    {
        Vector3 { x: N::zero(), y: N::zero(), z: N::zero() }
    }

    pub fn dot(&self, rhs: &Self) -> (r: N)
        ensures
            r == self.dot_spec(*rhs),
    {
        self.x.times(rhs.x).plus(self.y.times(rhs.y)).plus(self.z.times(rhs.z))
    }

    pub fn cross(&self, rhs: &Self) -> (r: Self)
        ensures
            r == self.cross_spec(*rhs),
    {
        Vector3 {
            x: self.y.times(rhs.z).minus(self.z.times(rhs.y)),
            y: self.z.times(rhs.x).minus(self.x.times(rhs.z)),
            z: self.x.times(rhs.y).minus(self.y.times(rhs.x)),
        }
    }

    pub fn norm(&self) -> (r: N)
        ensures
            r == self.norm_spec(),
    {
        self.dot(self).sqrt()
    }

    pub fn neg(&self) -> (r: Self)
        ensures
            r == self.neg_spec(),
    {
        Vector3 { x: self.x.negated(), y: self.y.negated(), z: self.z.negated() }
    }

    pub fn scale(&self, s: N) -> (r: Self)
        ensures
            r == self.scale_spec(s),
    {
        Vector3 { x: self.x.times(s), y: self.y.times(s), z: self.z.times(s) }
    }

    pub fn unscale(&self, s: N) -> (r: Self)
        ensures
            r == self.unscale_spec(s),
    {
        Vector3 { x: self.x.over(s), y: self.y.over(s), z: self.z.over(s) }
    }

    pub fn normalize(&self) -> (r: Self)
        ensures
            r == self.normalize_spec(),
    {
        self.unscale(self.norm())
    }

    pub fn try_normalize(&self, min_norm: N) -> (r: Option<Self>)
        ensures
            r == self.try_normalize_spec(min_norm),
    {
        let n = self.norm();
        if min_norm.less(n) {
            Some(self.unscale(n))
        } else {
            None
        }
    }
}

impl<N: Real> Unit<Vector3<N>> {
    /// The direction and the length of `value`: the vector divided by its
    /// length, and that length. A zero vector gives length zero and a
    /// direction that means nothing.
    pub fn new_and_get(value: Vector3<N>) -> (r: (Self, N))
        ensures
            r.0.value == value.normalize_spec(),
            r.1 == value.norm_spec(),
    {
        let n = value.norm();
        (Unit { value: value.unscale(n) }, n)
    }

    /// The direction of `value` where `min_norm` is less than its length, and
    /// nothing otherwise.
    pub fn try_new(value: Vector3<N>, min_norm: N) -> (r: Option<Self>)
        ensures
            r.is_some() == value.try_normalize_spec(min_norm).is_some(),
            r.is_some() ==> r.unwrap().value == value.normalize_spec(),
    {
        match value.try_normalize(min_norm) {
            Some(v) => Some(Unit { value: v }),
            None => None,
        }
    }
}

} // verus!
