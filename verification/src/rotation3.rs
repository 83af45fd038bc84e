//! Rotations of 3-space: built from an axis and an angle, from Euler angles,
//! from an observer's frame or from two directions, and taken apart again into
//! angle and axis.
//!
//! Each matrix is specified as the formula that produces it, entry by entry
//! and in the order of evaluation, because on a rounded scalar a different
//! order is a different value.

use vstd::prelude::*;
use crate::matrix::Matrix3;
use crate::rotation::RotationBase;
use crate::scalar::Real;
use crate::vector::{Unit, Vector3};

verus! {

/// `(a * b) * c + d * e`.
pub open spec fn triple_plus<N: Real>(a: N, b: N, c: N, d: N, e: N) -> N {
    a.times_spec(b).times_spec(c).plus_spec(d.times_spec(e))
}

/// `(a * b) * c - d * e`.
pub open spec fn triple_minus<N: Real>(a: N, b: N, c: N, d: N, e: N) -> N {
    a.times_spec(b).times_spec(c).minus_spec(d.times_spec(e))
}

/// `u * u + (1 - u * u) * cos`: a diagonal entry of the axis-angle matrix.
pub open spec fn axis_diagonal<N: Real>(u: N, cos: N) -> N {
    u.times_spec(u).plus_spec(N::one_spec().minus_spec(u.times_spec(u)).times_spec(cos))
}

/// The matrix of the rotation by `angle` about the unit vector `axis`, by
/// Rodrigues' formula, whatever the angle is.
pub open spec fn rodrigues_matrix<N: Real>(axis: Vector3<N>, angle: N) -> Matrix3<N> {
    let sin = angle.sin_spec();
    let cos = angle.cos_spec();
    let omc = N::one_spec().minus_spec(cos);
    Matrix3 {
        m11: axis_diagonal(axis.x, cos),
        m12: triple_minus(axis.x, axis.y, omc, axis.z, sin),
        m13: triple_plus(axis.x, axis.z, omc, axis.y, sin),
        m21: triple_plus(axis.x, axis.y, omc, axis.z, sin),
        m22: axis_diagonal(axis.y, cos),
        m23: triple_minus(axis.y, axis.z, omc, axis.x, sin),
        m31: triple_minus(axis.x, axis.z, omc, axis.y, sin),
        m32: triple_plus(axis.y, axis.z, omc, axis.x, sin),
        m33: axis_diagonal(axis.z, cos),
    }
}

/// The matrix of the rotation by `angle` about `axis`: the identity where the
/// angle is zero, whatever the axis holds, and Rodrigues' formula elsewhere.
pub open spec fn axis_angle_matrix<N: Real>(axis: Vector3<N>, angle: N) -> Matrix3<N> {
    if angle.is_zero_spec() {
        Matrix3::identity_spec()
    } else {
        rodrigues_matrix(axis, angle)
    }
}

/// The matrix of the rotation whose axis is the direction of `v` and whose
/// angle is the length of `v`.
pub open spec fn scaled_axis_matrix<N: Real>(v: Vector3<N>) -> Matrix3<N> {
    axis_angle_matrix(v.normalize_spec(), v.norm_spec())
}

/// The matrix of roll about x, then pitch about y, then yaw about z.
pub open spec fn euler_matrix<N: Real>(roll: N, pitch: N, yaw: N) -> Matrix3<N> {
    let sr = roll.sin_spec();
    let cr = roll.cos_spec();
    let sp = pitch.sin_spec();
    let cp = pitch.cos_spec();
    let sy = yaw.sin_spec();
    let cy = yaw.cos_spec();
    Matrix3 {
        m11: cy.times_spec(cp),
        m12: triple_minus(cy, sp, sr, sy, cr),
        m13: triple_plus(cy, sp, cr, sy, sr),
        m21: sy.times_spec(cp),
        m22: triple_plus(sy, sp, sr, cy, cr),
        m23: triple_minus(sy, sp, cr, cy, sr),
        m31: sp.negated_spec(),
        m32: cp.times_spec(sr),
        m33: cp.times_spec(cr),
    }
}

/// The third axis of an observer's frame: the direction of `dir`.
pub open spec fn frame_z<N: Real>(dir: Vector3<N>) -> Vector3<N> {
    dir.normalize_spec()
}

/// The first axis of an observer's frame: the direction of `up x z`.
pub open spec fn frame_x<N: Real>(dir: Vector3<N>, up: Vector3<N>) -> Vector3<N> {
    up.cross_spec(frame_z(dir)).normalize_spec()
}

/// The second axis of an observer's frame: the direction of `z x x`.
pub open spec fn frame_y<N: Real>(dir: Vector3<N>, up: Vector3<N>) -> Vector3<N> {
    frame_z(dir).cross_spec(frame_x(dir, up)).normalize_spec()
}

/// The matrix whose columns are the axes x, y and z of the frame of an
/// observer who looks along `dir` with `up` above.
pub open spec fn observer_frame_matrix<N: Real>(dir: Vector3<N>, up: Vector3<N>) -> Matrix3<N> {
    let x = frame_x(dir, up);
    let y = frame_y(dir, up);
    let z = frame_z(dir);
    Matrix3 {
        m11: x.x,
        m12: y.x,
        m13: z.x,
        m21: x.y,
        m22: y.y,
        m23: z.y,
        m31: x.z,
        m32: y.z,
        m33: z.z,
    }
}

/// What is known of two directions `na` and `nb` of length one: the rotation
/// about their cross product where that is longer than the default epsilon;
/// nothing where they point opposite ways; the identity where they point the
/// same way.
pub open spec fn between_units_matrix<N: Real>(na: Vector3<N>, nb: Vector3<N>, n: N) -> Option<
    Matrix3<N>,
> {
    let c = na.cross_spec(nb);
    if c.try_normalize_spec(N::default_epsilon_spec()).is_some() {
        Some(axis_angle_matrix(c.normalize_spec(), na.dot_spec(nb).acos_spec().times_spec(n)))
    } else if na.dot_spec(nb).less_spec(N::zero_spec()) {
        None
    } else {
        Some(Matrix3::identity_spec())
    }
}

/// The matrix of the smallest rotation that turns the direction of `a` into
/// that of `b`, with its angle multiplied by `n`. Where `a` or `b` has no
/// direction it is the identity; where they point opposite ways there is none.
pub open spec fn between_matrix<N: Real>(a: Vector3<N>, b: Vector3<N>, n: N) -> Option<
    Matrix3<N>,
> {
    if a.try_normalize_spec(N::zero_spec()).is_some() && b.try_normalize_spec(
        N::zero_spec(),
    ).is_some() {
        between_units_matrix(a.normalize_spec(), b.normalize_spec(), n)
    } else {
        Some(Matrix3::identity_spec())
    }
}

/// The matrix of a rotation that may be absent.
pub open spec fn matrix_of<N: Real>(r: Option<RotationBase<Matrix3<N>>>) -> Option<Matrix3<N>> {
    match r {
        Some(rot) => Some(rot@),
        None => None,
    }
}

/// `x` brought into `[-1, 1]`: minus one where `x` is less, one where `x` is
/// more, and `x` itself otherwise.
pub open spec fn clamp_unit<N: Real>(x: N) -> N {
    if x.less_spec(N::one_spec().negated_spec()) {
        N::one_spec().negated_spec()
    } else if N::one_spec().less_spec(x) {
        N::one_spec()
    } else {
        x
    }
}

/// The sum of the diagonal of `m`.
pub open spec fn trace<N: Real>(m: Matrix3<N>) -> N {
    m.m11.plus_spec(m.m22).plus_spec(m.m33)
}

/// The angle of the rotation `m`: the arc cosine of `(trace - 1) / 2`, the
/// quotient clamped to `[-1, 1]` first.
pub open spec fn angle_of<N: Real>(m: Matrix3<N>) -> N {
    clamp_unit(
        trace(m).minus_spec(N::one_spec()).over_spec(N::one_spec().plus_spec(N::one_spec())),
    ).acos_spec()
}

/// The skew-symmetric part of `m` as a vector. It points along the axis of
/// the rotation and vanishes where the angle is zero or a half turn.
pub open spec fn skew_vector<N: Real>(m: Matrix3<N>) -> Vector3<N> {
    Vector3 {
        x: m.m32.minus_spec(m.m23),
        y: m.m13.minus_spec(m.m31),
        z: m.m21.minus_spec(m.m12),
    }
}

/// The axis of the rotation `m`, where the skew-symmetric part is longer than
/// the default epsilon.
pub open spec fn axis_of<N: Real>(m: Matrix3<N>) -> Option<Vector3<N>> {
    skew_vector(m).try_normalize_spec(N::default_epsilon_spec())
}

/// The axis of `m` multiplied by its angle; the zero vector where `m` has no
/// axis.
pub open spec fn scaled_axis_of<N: Real>(m: Matrix3<N>) -> Vector3<N> {
    match axis_of(m) {
        Some(axis) => axis.scale_spec(angle_of(m)),
        None => Vector3::zero_spec(),
    }
}

/// The rotation `m` raised to the power `n`: the same axis with the angle
/// multiplied by `n`. Where `m` has no axis, a negative first entry marks a
/// half turn, for which minus the identity stands; else the identity.
pub open spec fn power_of<N: Real>(m: Matrix3<N>, n: N) -> Matrix3<N> {
    match axis_of(m) {
        Some(axis) => axis_angle_matrix(axis, angle_of(m).times_spec(n)),
        None => if m.m11.less_spec(N::zero_spec()) {
            Matrix3::diagonal_spec(N::one_spec().negated_spec())
        } else {
            Matrix3::identity_spec()
        },
    }
}

fn triple_plus_exec<N: Real>(a: N, b: N, c: N, d: N, e: N) -> (r: N)
    ensures
        r == triple_plus(a, b, c, d, e),
{
    a.times(b).times(c).plus(d.times(e))
}

fn triple_minus_exec<N: Real>(a: N, b: N, c: N, d: N, e: N) -> (r: N)
    ensures
        r == triple_minus(a, b, c, d, e),
{
    a.times(b).times(c).minus(d.times(e))
}

fn axis_diagonal_exec<N: Real>(u: N, cos: N) -> (r: N)
    ensures
        r == axis_diagonal(u, cos),
{
    let sq = u.times(u);
    sq.plus(N::one().minus(sq).times(cos))
}

fn clamp_unit_exec<N: Real>(x: N) -> (r: N)
    ensures
        r == clamp_unit(x),
{
    let minus_one = N::one().negated();
    if x.less(minus_one) {
        minus_one
    } else if N::one().less(x) {
        N::one()
    } else {
        x
    }
}

impl<N: Real> RotationBase<Matrix3<N>> {
    /// The rotation whose axis is the direction of `axisangle` and whose angle,
    /// in radians, is its length. The zero vector gives the identity.
    pub fn new(axisangle: Vector3<N>) -> (r: Self)
        ensures
            r@ == scaled_axis_matrix(axisangle),
            axisangle.norm_spec().is_zero_spec() ==> r@ == Matrix3::<N>::identity_spec(),
    {
        let (axis, angle) = Unit::new_and_get(axisangle);
        Self::from_axis_angle(&axis, angle)
    }

    /// The same as [`RotationBase::new`].
    pub fn from_scaled_axis(axisangle: Vector3<N>) -> (r: Self)
        ensures
            r@ == scaled_axis_matrix(axisangle),
    {
        Self::new(axisangle)
    }

    /// The rotation by `angle` radians about `axis`. A zero angle gives the
    /// identity itself, and the axis is not read.
    pub fn from_axis_angle(axis: &Unit<Vector3<N>>, angle: N) -> (r: Self)
        ensures
            r@ == axis_angle_matrix(axis.value, angle),
            angle.is_zero_spec() ==> r@ == Matrix3::<N>::identity_spec(),
            !angle.is_zero_spec() ==> r@ == rodrigues_matrix(axis.value, angle),
    {
        if angle.is_zero() {
            Self::identity()
        } else {
            let u = axis.as_ref();
            let (sin, cos) = angle.sin_cos();
            let omc = N::one().minus(cos);
            Self::from_matrix_unchecked(
                Matrix3::new(
                    axis_diagonal_exec(u.x, cos),
                    triple_minus_exec(u.x, u.y, omc, u.z, sin),
                    triple_plus_exec(u.x, u.z, omc, u.y, sin),
                    triple_plus_exec(u.x, u.y, omc, u.z, sin),
                    axis_diagonal_exec(u.y, cos),
                    triple_minus_exec(u.y, u.z, omc, u.x, sin),
                    triple_minus_exec(u.x, u.z, omc, u.y, sin),
                    triple_plus_exec(u.y, u.z, omc, u.x, sin),
                    axis_diagonal_exec(u.z, cos),
                ),
            )
        }
    }

    /// The rotation made of a roll about x, then a pitch about y, then a yaw
    /// about z, all in radians.
    pub fn from_euler_angles(roll: N, pitch: N, yaw: N) -> (r: Self)
        ensures
            r@ == euler_matrix(roll, pitch, yaw),
    {
        let (sr, cr) = roll.sin_cos();
        let (sp, cp) = pitch.sin_cos();
        let (sy, cy) = yaw.sin_cos();
        Self::from_matrix_unchecked(
            Matrix3::new(
                cy.times(cp),
                triple_minus_exec(cy, sp, sr, sy, cr),
                triple_plus_exec(cy, sp, cr, sy, sr),
                sy.times(cp),
                triple_plus_exec(sy, sp, sr, cy, cr),
                triple_minus_exec(sy, sp, cr, cy, sr),
                sp.negated(),
                cp.times(sr),
                cp.times(cr),
            ),
        )
    }

    /// The frame of an observer at the origin who looks along `dir`: the
    /// rotation that takes the z axis to `dir`.
    ///
    /// `up` must not be collinear with `dir`. This is not tested: where it
    /// fails the frame is still the formula's value, and means nothing.
    pub fn new_observer_frame(dir: &Vector3<N>, up: &Vector3<N>) -> (r: Self)
        ensures
            r@ == observer_frame_matrix(*dir, *up),
    {
        let zaxis = dir.normalize();
        let xaxis = up.cross(&zaxis).normalize();
        let yaxis = zaxis.cross(&xaxis).normalize();
        Self::from_matrix_unchecked(
            Matrix3::new(
                xaxis.x,
                yaxis.x,
                zaxis.x,
                xaxis.y,
                yaxis.y,
                zaxis.y,
                xaxis.z,
                yaxis.z,
                zaxis.z,
            ),
        )
    }

    /// The right-handed look-at rotation: the inverse of the frame of an
    /// observer who looks along `-dir`.
    pub fn look_at_rh(dir: &Vector3<N>, up: &Vector3<N>) -> (r: Self)
        ensures
            r@ == observer_frame_matrix(dir.neg_spec(), *up).transpose_spec(),
    {
        Self::new_observer_frame(&dir.neg(), up).inverse()
    }

    /// The left-handed look-at rotation: the inverse of the frame of an
    /// observer who looks along `dir`.
    pub fn look_at_lh(dir: &Vector3<N>, up: &Vector3<N>) -> (r: Self)
        ensures
            r@ == observer_frame_matrix(*dir, *up).transpose_spec(),
    {
        Self::new_observer_frame(dir, up).inverse()
    }

    /// The smallest rotation that turns the direction of `a` into that of `b`.
    /// There is none where they point opposite ways.
    pub fn rotation_between(a: &Vector3<N>, b: &Vector3<N>) -> (r: Option<Self>)
        ensures
            matrix_of(r) == between_matrix(*a, *b, N::one_spec()),
    {
        Self::scaled_rotation_between(a, b, N::one())
    }

    /// The smallest rotation that turns the direction of `a` into that of `b`,
    /// with its angle multiplied by `n`.
    ///
    /// Where `a` or `b` has no direction, and where they point the same way,
    /// this is the identity. Where they point opposite ways every axis
    /// orthogonal to them would do, and there is no answer.
    pub fn scaled_rotation_between(a: &Vector3<N>, b: &Vector3<N>, n: N) -> (r: Option<Self>)
        ensures
            matrix_of(r) == between_matrix(*a, *b, n),
    {
        match (a.try_normalize(N::zero()), b.try_normalize(N::zero())) {
            (Some(na), Some(nb)) => Self::between_units(&na, &nb, n),
            _ => Some(Self::identity()),
        }
    }

    /// [`RotationBase::scaled_rotation_between`] for two vectors that have been
    /// normalized.
    fn between_units(na: &Vector3<N>, nb: &Vector3<N>, n: N) -> (r: Option<Self>)
        ensures
            matrix_of(r) == between_units_matrix(*na, *nb, n),
    {
        let c = na.cross(nb);
        match Unit::try_new(c, N::default_epsilon()) {
            Some(axis) => Some(Self::from_axis_angle(&axis, na.dot(nb).acos().times(n))),
            None => {
                if na.dot(nb).less(N::zero()) {
                    None
                } else {
                    Some(Self::identity())
                }
            },
        }
    }

    /// The angle of the rotation, in radians.
    pub fn angle(&self) -> (r: N)
        ensures
            r == angle_of(self@),
    {
        let m = self.matrix();
        let two = N::one().plus(N::one());
        clamp_unit_exec(m.m11.plus(m.m22).plus(m.m33).minus(N::one()).over(two)).acos()
    }

    /// The axis of the rotation. There is none where the angle is zero or a
    /// half turn.
    pub fn axis(&self) -> (r: Option<Unit<Vector3<N>>>)
        ensures
            r.is_some() == axis_of(self@).is_some(),
            r.is_some() ==> r.unwrap().value == axis_of(self@).unwrap(),
    {
        let m = self.matrix();
        let v = Vector3::new(m.m32.minus(m.m23), m.m13.minus(m.m31), m.m21.minus(m.m12));
        Unit::try_new(v, N::default_epsilon())
    }

    /// The axis multiplied by the angle; the zero vector where there is no
    /// axis, be the angle zero or a half turn.
    pub fn scaled_axis(&self) -> (r: Vector3<N>)
        ensures
            r == scaled_axis_of(self@),
            axis_of(self@).is_none() ==> r == Vector3::<N>::zero_spec(),
    {
        match self.axis() {
            Some(axis) => axis.unwrap().scale(self.angle()),
            None => Vector3::zero(),
        }
    }

    /// The angle of the rotation that takes `self` to `other`.
    pub fn angle_to(&self, other: &Self) -> (r: N)
        ensures
            r == angle_of(other@.product_spec(self@.transpose_spec())),
    {
        self.rotation_to(other).angle()
    }

    /// The rotation that takes `self` to `other`: `other` after the inverse of
    /// `self`.
    pub fn rotation_to(&self, other: &Self) -> (r: Self)
        ensures
            r@ == other@.product_spec(self@.transpose_spec()),
    {
        other.compose(&self.inverse())
    }

    /// The rotation about the axis of `self` by `n` times its angle.
    ///
    /// Where `self` has no axis the result is a fixed choice: minus the
    /// identity where the first entry is negative, which marks a half turn,
    /// and the identity otherwise.
    pub fn powf(&self, n: N) -> (r: Self)
        ensures
            r@ == power_of(self@, n),
    {
        match self.axis() {
            Some(axis) => Self::from_axis_angle(&axis, self.angle().times(n)),
            None => {
                if self.matrix().m11.less(N::zero()) {
                    Self::from_matrix_unchecked(Matrix3::from_diagonal_element(N::one().negated()))
                } else {
                    Self::identity()
                }
            },
        }
    }
}

} // verus!
