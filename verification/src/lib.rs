//! Geometric core of a minimal ray tracer: homogeneous tuples, 4x4 matrices
//! and transforms, and ray-sphere intersection, all over exact fixed-point
//! arithmetic.

use vstd::prelude::*;

pub mod fixed;
pub mod tuples;
pub mod matrix;
pub mod adjugate;
pub mod spheres;
pub mod projectile;

verus! {

/// Reason a geometric operation could not produce a value.
#[derive(Debug, Clone, Copy, PartialEq, Eq, Structural)]
pub enum MathError {
    /// The tuple's fixed-point magnitude is zero, so it has no direction.
    ZeroMagnitude,
    /// The matrix's determinant is zero, so it has no inverse.
    NotInvertible,
    /// A ray direction whose fixed-point square is zero cannot be intersected.
    Degenerate,
    /// A result does not fit in the fixed-point range.
    OutOfRange,
}

} // verus!
