//! Checked fixed-point helpers shared by every money calculation.

use vstd::prelude::*;
use crate::errors::ErrorCode;

verus! {

/// Scale factor of six-decimal fixed-point prices.
pub const PRICE_SCALE: u64 = 1_000_000;

/// The exact quotient `a * b / scale` over the mathematical integers,
/// rounded down.
pub open spec fn scaled_product(a: u64, b: u64, scale: u64) -> int {
    (a as int * b as int) / (scale as int)
}

/// The value of `amount` asset units at a six-decimal `price`.
pub open spec fn value_at(amount: u64, price: u64) -> int {
    scaled_product(amount, price, PRICE_SCALE)
}

/// Multiplies in double width, divides, and reports overflow when the
/// quotient does not fit in 64 bits.
pub fn scaled_multiply_divide(a: u64, b: u64, scale: u64) -> (r: Result<u64, ErrorCode>)
    requires
        scale > 0,
    ensures
        scaled_product(a, b, scale) <= u64::MAX ==> r == Ok::<u64, ErrorCode>(
            scaled_product(a, b, scale) as u64,
        ),
        scaled_product(a, b, scale) > u64::MAX ==> r == Err::<u64, ErrorCode>(
            ErrorCode::ArithmeticOverflow,
        ),
{
    assert(a as int * b as int <= u64::MAX as int * u64::MAX as int) by (nonlinear_arith)
        requires
            0 <= a as int <= u64::MAX as int,
            0 <= b as int <= u64::MAX as int,
    ;
    assert(0 <= a as int * b as int) by (nonlinear_arith)
        requires
            0 <= a as int,
            0 <= b as int,
    ;
    let wide: u128 = (a as u128) * (b as u128);
    let quotient: u128 = wide / (scale as u128);
    if quotient > u64::MAX as u128 {
        Err(ErrorCode::ArithmeticOverflow)
    } else {
        Ok(quotient as u64)
    }
}

/// Adds two balances, reporting overflow instead of wrapping.
pub fn checked_add(a: u64, b: u64) -> (r: Result<u64, ErrorCode>)
    ensures
        a + b <= u64::MAX ==> r == Ok::<u64, ErrorCode>((a + b) as u64),
        a + b > u64::MAX ==> r == Err::<u64, ErrorCode>(ErrorCode::ArithmeticOverflow),
{
    if a > u64::MAX - b {
        Err(ErrorCode::ArithmeticOverflow)
    } else {
        Ok(a + b)
    }
}

/// Subtracts `b` from `a`, reporting underflow instead of wrapping.
pub fn checked_sub(a: u64, b: u64) -> (r: Result<u64, ErrorCode>)
    ensures
        b <= a ==> r == Ok::<u64, ErrorCode>((a - b) as u64),
        b > a ==> r == Err::<u64, ErrorCode>(ErrorCode::ArithmeticUnderflow),
{
    if b > a {
        Err(ErrorCode::ArithmeticUnderflow)
    } else {
        Ok(a - b)
    }
}

} // verus!
