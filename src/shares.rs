//! Receipt-token amounts for deposits and withdrawals.
//!
//! Minting rounds down and burning rounds up, both on the exact ratio, so
//! the rounding always falls on the depositor or withdrawer and never on the
//! remaining holders.
use crate::error::{u64_result, BlenderError};
use crate::fixed_point::{fx_to_u64, Fixed, FIXED_ONE};
use vstd::arithmetic::div_mod::{
    lemma_div_denominator, lemma_div_multiples_vanish, lemma_fundamental_div_mod,
};
use vstd::prelude::*;

verus! {

/// `x / d` rounded toward positive infinity, for `d > 0`.
pub open spec fn ceil_div(x: int, d: int) -> int {
    -((-x) / d)
}

/// Receipt tokens for a deposit worth `deposit_value`, all given as raw bits.
/// With no tokens outstanding: the whole part of the deposit value. Else
/// `deposit_value * outstanding / pool_value` rounded down, which fails for
/// a pool value that is not positive, a negative ratio, or a product of
/// deposit value and outstanding tokens beyond the fixed-point range.
pub open spec fn mint_amount(deposit_value: int, pool_value: int, outstanding: int) -> Result<
    u64,
    BlenderError,
> {
    let product = deposit_value * outstanding;
    if outstanding == 0 {
        u64_result(fx_to_u64(deposit_value))
    } else if pool_value <= 0 || product < 0 || product / (FIXED_ONE as int) > i128::MAX {
        Err(BlenderError::MathError)
    } else {
        let m = product / (FIXED_ONE * pool_value);
        if m <= u64::MAX {
            Ok(m as u64)
        } else {
            Err(BlenderError::MathError)
        }
    }
}

/// Receipt tokens to burn for a withdrawal worth `withdraw_value`:
/// `withdraw_value * outstanding / pool_value` rounded up. Fails for a pool
/// value that is not positive, a negative withdrawal value or supply, or a
/// product of withdrawal value and outstanding tokens beyond the fixed-point
/// range.
pub open spec fn burn_amount(withdraw_value: int, pool_value: int, outstanding: int) -> Result<
    u64,
    BlenderError,
> {
    let product = withdraw_value * outstanding;
    if pool_value <= 0 || withdraw_value < 0 || outstanding < 0 || ceil_div(
        product,
        FIXED_ONE as int,
    ) > i128::MAX {
        Err(BlenderError::MathError)
    } else {
        let b = ceil_div(product, FIXED_ONE * pool_value);
        if b <= u64::MAX {
            Ok(b as u64)
        } else {
            Err(BlenderError::MathError)
        }
    }
}

proof fn lemma_floor_bounds(x: int, d: int)
    requires
        d > 0,
    ensures
        (x / d) * d <= x < (x / d + 1) * d,
{
    lemma_fundamental_div_mod(x, d);
    let q = x / d;
    let r = x % d;
    assert(q * d <= x < (q + 1) * d) by (nonlinear_arith)
        requires
            x == d * q + r,
            0 <= r < d,
    ;
}

proof fn lemma_floor_unique(x: int, d: int, b: int)
    requires
        d > 0,
        b * d <= x < (b + 1) * d,
    ensures
        x / d == b,
{
    lemma_floor_bounds(x, d);
    let q = x / d;
    assert(q == b) by (nonlinear_arith)
        requires
            d > 0,
            b * d <= x < (b + 1) * d,
            q * d <= x < (q + 1) * d,
    ;
}

proof fn lemma_ceil_bounds(x: int, d: int)
    requires
        d > 0,
    ensures
        (ceil_div(x, d) - 1) * d < x <= ceil_div(x, d) * d,
{
    lemma_floor_bounds(-x, d);
    let q = (-x) / d;
    assert((-q - 1) * d < x <= (-q) * d) by (nonlinear_arith)
        requires
            q * d <= -x < (q + 1) * d,
    ;
}

proof fn lemma_ceil_unique(x: int, d: int, b: int)
    requires
        d > 0,
        (b - 1) * d < x <= b * d,
    ensures
        ceil_div(x, d) == b,
{
    assert((-b) * d <= -x < (-b + 1) * d) by (nonlinear_arith)
        requires
            (b - 1) * d < x <= b * d,
    ;
    lemma_floor_unique(-x, d, -b);
}

/// How many receipt tokens a deposit of `deposit_value_quote` buys, so that
/// the depositor owns the share of the pool that the deposit adds to it.
pub fn calculate_iou_mint_amount(
    deposit_value_quote: Fixed,
    pool_value_quote: Fixed,
    outstanding_iou_tokens: Fixed,
) -> (r: Result<u64, BlenderError>)
    ensures
        r == mint_amount(deposit_value_quote@, pool_value_quote@, outstanding_iou_tokens@),
        outstanding_iou_tokens@ != 0 ==> (r matches Ok(m) ==> m * (FIXED_ONE
            * pool_value_quote@) <= deposit_value_quote@ * outstanding_iou_tokens@ < (m + 1) * (
        FIXED_ONE * pool_value_quote@)),
{
    let ghost one = FIXED_ONE as int;
    let ghost x = deposit_value_quote@ * outstanding_iou_tokens@;
    if outstanding_iou_tokens.bits == 0 {
        return match deposit_value_quote.floor_to_u64() {
            Some(m) => Ok(m),
            None => Err(BlenderError::MathError),
        };
    }
    if pool_value_quote.bits <= 0 {
        return Err(BlenderError::MathError);
    }
    let ghost p = pool_value_quote@;
    assert(one * p > 0) by (nonlinear_arith)
        requires
            one > 0,
            p > 0,
    ;
    proof {
        lemma_floor_bounds(x, one * p);
    }
    let product = match deposit_value_quote.checked_mul(outstanding_iou_tokens) {
        Some(v) => v,
        None => {
            return Err(BlenderError::MathError);
        },
    };
    // `product` is `x / 2^48` rounded down: negative exactly when `x` is.
    proof {
        lemma_floor_bounds(x, one);
    }
    if product.bits < 0 {
        assert(x < 0) by (nonlinear_arith)
            requires
                x < (product@ + 1) * one,
                product@ < 0,
                one > 0,
        ;
        return Err(BlenderError::MathError);
    }
    assert(x >= 0) by (nonlinear_arith)
        requires
            product@ * one <= x,
            product@ >= 0,
            one > 0,
    ;
    let ghost mf = product@;
    assert(mf * one >= 0) by (nonlinear_arith)
        requires
            mf >= 0,
            one > 0,
    ;
    proof {
        lemma_div_denominator(x, one, p);
        lemma_div_denominator(mf * one, p, one);
        lemma_div_denominator(mf * one, one, p);
        lemma_div_multiples_vanish(mf, one);
    }
    assert(mf * one == one * mf) by (nonlinear_arith);
    assert(p * one == one * p) by (nonlinear_arith);
    let ghost m = x / (one * p);
    assert((mf * one) / p / one == m);
    match product.checked_div(pool_value_quote) {
        Some(q) => {
            assert(q@ == (mf * one) / p);
            match q.floor_to_u64() {
                Some(v) => Ok(v),
                None => Err(BlenderError::MathError),
            }
        },
        None => {
            assert((mf * one) / p > i128::MAX);
            assert(m > u64::MAX);
            Err(BlenderError::MathError)
        },
    }
}

/// How many receipt tokens a withdrawal of `withdraw_value_quote` burns.
pub fn calculate_iou_burn_amount(
    withdraw_value_quote: Fixed,
    pool_value_quote: Fixed,
    outstanding_iou_tokens: Fixed,
) -> (r: Result<u64, BlenderError>)
    ensures
        r == burn_amount(withdraw_value_quote@, pool_value_quote@, outstanding_iou_tokens@),
        r matches Ok(b) ==> (b - 1) * (FIXED_ONE * pool_value_quote@) < withdraw_value_quote@
            * outstanding_iou_tokens@ <= b * (FIXED_ONE * pool_value_quote@),
{
    let ghost one = FIXED_ONE as int;
    let ghost x = withdraw_value_quote@ * outstanding_iou_tokens@;
    if pool_value_quote.bits <= 0 || withdraw_value_quote.bits < 0 || outstanding_iou_tokens.bits
        < 0 {
        return Err(BlenderError::MathError);
    }
    let ghost p = pool_value_quote@;
    assert(x >= 0) by (nonlinear_arith)
        requires
            x == withdraw_value_quote@ * outstanding_iou_tokens@,
            withdraw_value_quote@ >= 0,
            outstanding_iou_tokens@ >= 0,
    ;
    assert((-withdraw_value_quote@) * outstanding_iou_tokens@ == -x) by (nonlinear_arith)
        requires
            x == withdraw_value_quote@ * outstanding_iou_tokens@,
    ;
    // The product rounded up, as the negation of the negated product rounded down.
    let up = match withdraw_value_quote.checked_neg() {
        Some(n) => match n.checked_mul(outstanding_iou_tokens) {
            Some(low) => low.checked_neg(),
            None => None,
        },
        None => None,
    };
    let up = match up {
        Some(u) => u,
        None => {
            return Err(BlenderError::MathError);
        },
    };
    assert(up@ == ceil_div(x, one));
    assert(up@ >= 0);
    let num = up.bits as u128;
    let den = pool_value_quote.bits as u128;
    let q: u128 = if num == 0 {
        0
    } else {
        (num - 1) / den + 1
    };
    assert(one * p > 0) by (nonlinear_arith)
        requires
            one > 0,
            p > 0,
    ;
    // `q` is `up / p` rounded up.
    if num == 0 {
        assert((q - 1) * p < up@ <= q * p);
    } else {
        proof {
            lemma_floor_bounds(up@ - 1, p);
        }
        let ghost k = (up@ - 1) / p;
        assert(k * p < up@ <= (k + 1) * p) by (nonlinear_arith)
            requires
                k * p <= up@ - 1 < (k + 1) * p,
        ;
    }
    // Rounding up twice is rounding up once by the product of the divisors.
    proof {
        lemma_ceil_bounds(x, one);
    }
    assert((q - 1) * (one * p) < x <= q * (one * p)) by (nonlinear_arith)
        requires
            (q - 1) * p < up@ <= q * p,
            (up@ - 1) * one < x <= up@ * one,
            one > 0,
            p > 0,
    ;
    proof {
        lemma_ceil_unique(x, one * p, q as int);
    }
    if q > u64::MAX as u128 {
        Err(BlenderError::MathError)
    } else {
        Ok(q as u64)
    }
}

/// The first deposit into a pool with no receipt tokens outstanding mints
/// one token per whole quote unit of its value, whatever the pool is worth.
pub proof fn lemma_bootstrap_mint(deposit_value: int, pool_value: int)
    requires
        0 <= deposit_value,
        deposit_value / (FIXED_ONE as int) <= u64::MAX,
    ensures
        mint_amount(deposit_value, pool_value, 0) == Ok::<u64, BlenderError>(
            (deposit_value / (FIXED_ONE as int)) as u64,
        ),
{
}

/// With the pool's value unchanged, burning for a withdrawal of some value
/// takes at least as many receipt tokens as depositing that value mints, and
/// at most one more.
pub proof fn lemma_burn_covers_mint(value: int, pool_value: int, outstanding: int)
    requires
        outstanding > 0,
    ensures
        match (
            mint_amount(value, pool_value, outstanding),
            burn_amount(value, pool_value, outstanding),
        ) {
            (Ok(m), Ok(b)) => m <= b <= m + 1,
            _ => true,
        },
{
    if pool_value > 0 {
        let d = FIXED_ONE * pool_value;
        let x = value * outstanding;
        assert(d > 0) by (nonlinear_arith)
            requires
                pool_value > 0,
                d == FIXED_ONE * pool_value,
        ;
        lemma_floor_bounds(x, d);
        lemma_ceil_bounds(x, d);
        let m = x / d;
        let b = ceil_div(x, d);
        assert(m <= b <= m + 1) by (nonlinear_arith)
            requires
                d > 0,
                m * d <= x < (m + 1) * d,
                (b - 1) * d < x <= b * d,
        ;
    }
}

} // verus!
