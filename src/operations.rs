//! What one deposit or withdrawal request amounts to, computed from a pool
//! value that was measured before any principal moves.
use crate::error::{fixed_result, BlenderError};
use crate::fees::{fee_split, split_fee};
use crate::fixed_point::{fx_mul, Fixed, FIXED_ONE};
use crate::shares::{
    burn_amount, calculate_iou_burn_amount, calculate_iou_mint_amount, mint_amount,
};
use vstd::prelude::*;

verus! {

/// The amounts of one deposit of quote tokens.
#[derive(Clone, Copy, Debug, PartialEq, Eq, Structural)]
pub struct DepositPlan {
    /// Receipt tokens minted to the depositor, for the whole quantity.
    pub mint_amount: u64,
    /// Quote tokens forwarded into the pooled account.
    pub net_forwarded: u64,
    /// Quote tokens paid to the fee recipient; the depositor also hands the
    /// fee recipient this many receipt tokens.
    pub fee_amount: u64,
}

pub open spec fn deposit_outcome(
    quantity: u64,
    fee_basis: u16,
    pool_value: int,
    outstanding: u64,
) -> Result<DepositPlan, BlenderError> {
    if quantity == 0 {
        Err(BlenderError::ZeroAmount)
    } else {
        match fee_split(quantity, fee_basis) {
            Err(e) => Err(e),
            Ok(split) => match mint_amount(
                quantity * FIXED_ONE,
                pool_value,
                outstanding * FIXED_ONE,
            ) {
                Err(e) => Err(e),
                Ok(m) => Ok(
                    DepositPlan {
                        mint_amount: m,
                        net_forwarded: split.net_forwarded,
                        fee_amount: split.fee_amount,
                    },
                ),
            },
        }
    }
}

pub open spec fn withdraw_outcome(
    quantity: u64,
    pool_value: int,
    outstanding: u64,
    holder_balance: u64,
) -> Result<u64, BlenderError> {
    match burn_amount(quantity * FIXED_ONE, pool_value, outstanding * FIXED_ONE) {
        Err(e) => Err(e),
        Ok(b) => if b == 0 {
            Err(BlenderError::ZeroAmount)
        } else if b > holder_balance {
            Err(BlenderError::InsufficientShares)
        } else {
            Ok(b)
        },
    }
}

/// A deposit of `quantity` quote tokens into a pool worth `pool_value`
/// before the deposit, with `outstanding` receipt tokens in circulation.
/// The receipt tokens are minted for the whole quantity, while only the net
/// part reaches the pool; the fee recipient's receipt tokens come out of the
/// depositor's. So the existing holders' value per token falls by the fee's
/// share unless the fee recipient counts as one of them.
pub fn compute_deposit(quantity: u64, fee_basis: u16, pool_value: Fixed, outstanding: u64) -> (r:
    Result<DepositPlan, BlenderError>)
    ensures
        r == deposit_outcome(quantity, fee_basis, pool_value@, outstanding),
{
    if quantity == 0 {
        return Err(BlenderError::ZeroAmount);
    }
    let split = split_fee(quantity, fee_basis)?;
    let mint = calculate_iou_mint_amount(
        Fixed::from_num(quantity),
        pool_value,
        Fixed::from_num(outstanding),
    )?;
    Ok(
        DepositPlan {
            mint_amount: mint,
            net_forwarded: split.net_forwarded,
            fee_amount: split.fee_amount,
        },
    )
}

/// The receipt tokens burned for a withdrawal of `quantity` quote tokens
/// from a pool worth `pool_value`, by a holder of `holder_balance` of the
/// `outstanding` receipt tokens. Nothing is burned unless the whole amount
/// is positive and held.
pub fn compute_withdraw(quantity: u64, pool_value: Fixed, outstanding: u64, holder_balance: u64) -> (r:
    Result<u64, BlenderError>)
    ensures
        r == withdraw_outcome(quantity, pool_value@, outstanding, holder_balance),
        burn_amount(quantity * FIXED_ONE, pool_value@, outstanding * FIXED_ONE) == Ok::<
            u64,
            BlenderError,
        >(0) ==> r == Err::<u64, BlenderError>(BlenderError::ZeroAmount),
        burn_amount(quantity * FIXED_ONE, pool_value@, outstanding * FIXED_ONE) matches Ok(b)
            && b > holder_balance ==> r == Err::<u64, BlenderError>(
            BlenderError::InsufficientShares,
        ),
        r matches Ok(b) ==> 0 < b <= holder_balance,
        r matches Ok(b) ==> quantity * outstanding * FIXED_ONE <= b * pool_value@,
{
    let burn = calculate_iou_burn_amount(
        Fixed::from_num(quantity),
        pool_value,
        Fixed::from_num(outstanding),
    )?;
    // The burned tokens are worth at least what is withdrawn.
    assert((quantity as int) * (outstanding as int) * FIXED_ONE <= (burn as int) * pool_value@)
        by (nonlinear_arith)
        requires
            ((quantity as int) * FIXED_ONE) * ((outstanding as int) * FIXED_ONE) <= (burn as int)
                * (FIXED_ONE * pool_value@),
            FIXED_ONE > 0,
    ;
    if burn == 0 {
        Err(BlenderError::ZeroAmount)
    } else if burn > holder_balance {
        Err(BlenderError::InsufficientShares)
    } else {
        Ok(burn)
    }
}

/// Quote value of a deposit of `quantity` units of another token at
/// `price`; the pool value that the mint amount is computed against is
/// measured before the deposit lands.
pub fn asset_deposit_value(price: Fixed, quantity: u64) -> (r: Result<Fixed, BlenderError>)
    ensures
        quantity == 0 ==> r == Err::<Fixed, BlenderError>(BlenderError::ZeroAmount),
        quantity > 0 ==> r == fixed_result(fx_mul(price@, quantity * FIXED_ONE)),
{
    if quantity == 0 {
        return Err(BlenderError::ZeroAmount);
    }
    match price.checked_mul(Fixed::from_num(quantity)) {
        Some(v) => Ok(v),
        None => Err(BlenderError::MathError),
    }
}

} // verus!
