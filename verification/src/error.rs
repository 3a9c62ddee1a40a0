use vstd::prelude::*;

verus! {

/// The ways an operation can fail.
///
/// Every operation either returns a full result or one of these errors;
/// operands are never clamped or truncated to make an ill-shaped call go
/// through.
#[derive(Clone, Copy, Debug, PartialEq, Eq, Structural)]
pub enum LinAlgError {
    /// Two operands' sizes are incompatible for the requested operation:
    /// vectors of unequal length, a matrix whose column count differs from
    /// the vector's length, or a vector whose length differs from the
    /// matrix's row count.
    DimensionMismatch,
    /// The shape of the matrix cannot be determined: it has no row to
    /// measure.
    InvalidShape,
}

} // verus!
