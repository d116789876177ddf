//! Split of a gross deposit into the part forwarded to the pool and the fee.
use crate::error::BlenderError;
use vstd::prelude::*;

verus! {

/// Basis points in a whole.
pub const BPS_ONE: u64 = 10000;

#[derive(Clone, Copy, Debug, PartialEq, Eq, Structural)]
pub struct FeeSplit {
    /// Principal forwarded to the pooled account.
    pub net_forwarded: u64,
    /// Principal paid to the fee recipient.
    pub fee_amount: u64,
}

/// The quantity is divided into whole units of 10000 before the fee rate is
/// applied; the remainder below 10000 is neither forwarded nor collected.
pub open spec fn fee_split(quantity: u64, fee_basis: u16) -> Result<FeeSplit, BlenderError> {
    if fee_basis > BPS_ONE {
        Err(BlenderError::InvalidFeeRate)
    } else {
        let units = quantity / BPS_ONE;
        Ok(
            FeeSplit {
                net_forwarded: (units * (BPS_ONE - fee_basis)) as u64,
                fee_amount: (units * fee_basis) as u64,
            },
        )
    }
}

/// Splits `quantity` at `fee_basis` basis points.
pub fn split_fee(quantity: u64, fee_basis: u16) -> (r: Result<FeeSplit, BlenderError>)
    ensures
        r == fee_split(quantity, fee_basis),
        r matches Ok(s) ==> s.net_forwarded + s.fee_amount + quantity % BPS_ONE == quantity,
{
    if fee_basis as u64 > BPS_ONE {
        return Err(BlenderError::InvalidFeeRate);
    }
    let units = quantity / BPS_ONE;
    let f = fee_basis as u64;
    assert(units * (BPS_ONE - f) + units * f == units * BPS_ONE) by (nonlinear_arith);
    assert(units * (BPS_ONE - f) <= units * BPS_ONE && units * f <= units * BPS_ONE)
        by (nonlinear_arith)
        requires
            f <= BPS_ONE,
    ;
    Ok(FeeSplit { net_forwarded: units * (BPS_ONE - f), fee_amount: units * f })
}

} // verus!
