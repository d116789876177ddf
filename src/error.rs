//! Failures of the pool's computations.
use crate::fixed_point::Fixed;
use vstd::prelude::*;

verus! {

#[derive(Clone, Copy, Debug, PartialEq, Eq, Structural)]
pub enum BlenderError {
    /// A requested quantity, or the share amount computed from it, is zero.
    ZeroAmount,
    /// A fee rate above 10000 basis points.
    InvalidFeeRate,
    /// The holder owns fewer receipt tokens than the withdrawal burns.
    InsufficientShares,
    /// An overflow, a division by zero, or a result outside the range of
    /// its integer type (such as a negative share amount).
    MathError,
}

/// A fixed-point result given by its raw bits, or `MathError` when there is none.
pub open spec fn fixed_result(o: Option<int>) -> Result<Fixed, BlenderError> {
    match o {
        Some(v) => Ok(Fixed { bits: v as i128 }),
        None => Err(BlenderError::MathError),
    }
}

/// An integer result, or `MathError` when there is none.
pub open spec fn u64_result(o: Option<u64>) -> Result<u64, BlenderError> {
    match o {
        Some(v) => Ok(v),
        None => Err(BlenderError::MathError),
    }
}

} // verus!
