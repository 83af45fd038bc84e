//! Rotation matrices of the plane and of 3-space.
//!
//! A rotation is stored as its matrix and nothing else; angle and axis are
//! computed from the matrix whenever they are asked for. The scalar is any
//! type with the operations of [`scalar::Real`]. Since such a type rounds, the
//! contracts do not speak of real numbers: each states the exact formula that a
//! function evaluates, and which branch it takes where angle or axis
//! degenerate.
//!
//! - [`scalar`]: the operations asked of a scalar.
//! - [`vector`], [`matrix`]: the small vectors and matrices underneath.
//! - [`rotation`]: the rotation type, identity, inverse and composition.
//! - [`complex`]: unit complex numbers, through which two directions of the
//!   plane give a rotation.
//! - [`rotation2`], [`rotation3`]: construction and decomposition in the plane
//!   and in space.

pub mod scalar;
pub mod vector;
pub mod matrix;
pub mod rotation;
pub mod complex;
pub mod rotation2;
pub mod rotation3;
