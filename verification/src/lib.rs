//! A small dense linear-algebra library over 64-bit integer scalars.
//!
//! A matrix is an ordered sequence of equal-length rows; a vector is an
//! ordered sequence of scalars. The operations are pure: they never mutate
//! their inputs and return fresh vectors. Operands of incompatible sizes are
//! rejected with an explicit error rather than accepted silently.

pub mod error;
pub mod matrix;
pub mod vector;
