//! Signed fixed-point numbers with 80 integer and 48 fractional bits.
//!
//! A `Fixed` holds the raw bits of an `I80F48`; the number it stands for is
//! `bits / 2^48`. Multiplication, division and conversion to integers are done
//! by the `fixed` crate; their exact results are stated over `int` below.
use fixed::types::I80F48;
use vstd::prelude::*;

verus! {

/// The raw bits of the fixed-point number one.
pub const FIXED_ONE: i128 = 281474976710656;

pub open spec fn in_i128(x: int) -> bool {
    i128::MIN <= x <= i128::MAX
}

pub open spec fn abs(x: int) -> int {
    if x >= 0 {
        x
    } else {
        -x
    }
}

/// Quotient rounded toward zero.
pub open spec fn trunc_div(n: int, d: int) -> int {
    if (n >= 0) == (d > 0) {
        abs(n) / abs(d)
    } else {
        -(abs(n) / abs(d))
    }
}

/// The bits of a result when they fit, `None` on overflow.
pub open spec fn checked(x: int) -> Option<int> {
    if in_i128(x) {
        Some(x)
    } else {
        None
    }
}

/// Sum of two fixed-point numbers, given and returned as raw bits.
pub open spec fn fx_add(a: int, b: int) -> Option<int> {
    checked(a + b)
}

pub open spec fn fx_sub(a: int, b: int) -> Option<int> {
    checked(a - b)
}

pub open spec fn fx_neg(a: int) -> Option<int> {
    checked(-a)
}

/// Product at 48 fractional bits, rounded toward negative infinity.
pub open spec fn fx_mul(a: int, b: int) -> Option<int> {
    checked((a * b) / (FIXED_ONE as int))
}

/// Quotient at 48 fractional bits, rounded toward zero; `None` for a zero divisor.
pub open spec fn fx_div(a: int, b: int) -> Option<int> {
    if b == 0 {
        None
    } else {
        checked(trunc_div(a * FIXED_ONE, b))
    }
}

/// The largest whole number not above `a`, when it is a `u64`.
pub open spec fn fx_to_u64(a: int) -> Option<u64> {
    let f = a / (FIXED_ONE as int);
    if 0 <= f <= u64::MAX {
        Some(f as u64)
    } else {
        None
    }
}

/// A signed fixed-point number: `bits / 2^48`.
#[derive(Clone, Copy, Debug, PartialEq, Eq, Structural)]
pub struct Fixed {
    pub bits: i128,
}

impl View for Fixed {
    type V = int;

    open spec fn view(&self) -> int {
        self.bits as int
    }
}

/// The raw bits of an optional fixed-point number.
pub open spec fn fixed_opt(r: Option<Fixed>) -> Option<int> {
    match r {
        Some(f) => Some(f@),
        None => None,
    }
}

/// Relies on `I80F48::checked_mul`: the 256-bit product shifted right by the
/// 48 fractional bits (rounding toward negative infinity), `None` when that
/// does not fit in 128 bits.
#[verifier::external_body]
pub(crate) fn i80f48_checked_mul(a: Fixed, b: Fixed) -> (r: Option<Fixed>)
    ensures
        fixed_opt(r) == fx_mul(a@, b@),
{
    I80F48::from_bits(a.bits).checked_mul(I80F48::from_bits(b.bits)).map(
        |x| Fixed { bits: x.to_bits() },
    )
}

/// Relies on `I80F48::checked_div`: `None` for a zero divisor; otherwise the
/// dividend shifted left by 48 bits divided with truncation toward zero, `None`
/// when that does not fit in 128 bits.
#[verifier::external_body]
pub(crate) fn i80f48_checked_div(a: Fixed, b: Fixed) -> (r: Option<Fixed>)
    ensures
        fixed_opt(r) == fx_div(a@, b@),
{
    I80F48::from_bits(a.bits).checked_div(I80F48::from_bits(b.bits)).map(
        |x| Fixed { bits: x.to_bits() },
    )
}

/// Relies on `I80F48::checked_to_num::<u64>`: the fractional bits are
/// discarded (rounding toward negative infinity), `None` when the whole part
/// is not a `u64`.
#[verifier::external_body]
pub(crate) fn i80f48_checked_to_u64(a: Fixed) -> (r: Option<u64>)
    ensures
        r == fx_to_u64(a@),
{
    I80F48::from_bits(a.bits).checked_to_num::<u64>()
}

impl Fixed {
    pub fn from_bits(bits: i128) -> (r: Fixed)
        ensures
            r.bits == bits,
    {
        Fixed { bits }
    }

    pub fn zero() -> (r: Fixed)
        ensures
            r@ == 0,
    {
        Fixed { bits: 0 }
    }

    /// The whole number `n`.
    pub fn from_num(n: u64) -> (r: Fixed)
        ensures
            r@ == n * FIXED_ONE,
    {
        assert((n as int) * (FIXED_ONE as int) <= (u64::MAX as int) * (FIXED_ONE as int))
            by (nonlinear_arith)
            requires
                n <= u64::MAX,
        ;
        Fixed { bits: (n as i128) * FIXED_ONE }
    }

    pub fn checked_add(self, rhs: Fixed) -> (r: Option<Fixed>)
        ensures
            fixed_opt(r) == fx_add(self@, rhs@),
    {
        match self.bits.checked_add(rhs.bits) {
            Some(bits) => Some(Fixed { bits }),
            None => None,
        }
    }

    pub fn checked_sub(self, rhs: Fixed) -> (r: Option<Fixed>)
        ensures
            fixed_opt(r) == fx_sub(self@, rhs@),
    {
        match self.bits.checked_sub(rhs.bits) {
            Some(bits) => Some(Fixed { bits }),
            None => None,
        }
    }

    pub fn checked_neg(self) -> (r: Option<Fixed>)
        ensures
            fixed_opt(r) == fx_neg(self@),
    {
        if self.bits == i128::MIN {
            None
        } else {
            Some(Fixed { bits: -self.bits })
        }
    }

    pub fn checked_mul(self, rhs: Fixed) -> (r: Option<Fixed>)
        ensures
            fixed_opt(r) == fx_mul(self@, rhs@),
    {
        i80f48_checked_mul(self, rhs)
    }

    pub fn checked_div(self, rhs: Fixed) -> (r: Option<Fixed>)
        ensures
            fixed_opt(r) == fx_div(self@, rhs@),
    {
        i80f48_checked_div(self, rhs)
    }

    /// The whole part, rounded toward negative infinity, as a `u64`.
    pub fn floor_to_u64(self) -> (r: Option<u64>)
        ensures
            r == fx_to_u64(self@),
    {
        i80f48_checked_to_u64(self)
    }

    /// Whether `self` is larger than `other` in absolute value.
    pub fn abs_gt(self, other: Fixed) -> (r: bool)
        ensures
            r == (abs(self@) > abs(other@)),
    {
        magnitude(self.bits) > magnitude(other.bits)
    }
}

fn magnitude(x: i128) -> (r: u128)
    ensures
        r == abs(x as int),
{
    if x >= 0 {
        x as u128
    } else {
        (-(x + 1)) as u128 + 1
    }
}

} // verus!
