//! Overflow-checked arithmetic on amounts and share counts.
//!
//! Nothing here wraps, saturates or truncates: a result that does not fit
//! is a fault.  Products are formed in 128 bits before they are divided back
//! down, so only the final quotient has to fit in 64 bits.

use vstd::prelude::*;
use crate::error::ErrorCode;

verus! {

/// What `checked_add` returns: the sum where it fits in 64 bits.
pub open spec fn sum_or_fault(a: u64, b: u64) -> Result<u64, ErrorCode> {
    if a + b <= u64::MAX {
        Ok((a + b) as u64)
    } else {
        Err(ErrorCode::ArithmeticOverflow)
    }
}

/// What `mul_div` returns: `floor(a * b / divisor)`, with a zero divisor and
/// a quotient beyond 64 bits as two distinct faults.
pub open spec fn ratio_or_fault(a: u64, b: u64, divisor: u64) -> Result<u64, ErrorCode> {
    if divisor == 0 {
        Err(ErrorCode::InvalidMarketState)
    } else if (a * b) / (divisor as int) > u64::MAX {
        Err(ErrorCode::ArithmeticOverflow)
    } else {
        Ok(((a * b) / (divisor as int)) as u64)
    }
}

/// Adds two amounts, failing with `ArithmeticOverflow` where the sum does
/// not fit.
pub fn checked_add(a: u64, b: u64) -> (total: Result<u64, ErrorCode>)
    ensures
        total == sum_or_fault(a, b),
{
    match a.checked_add(b) {
        Some(total) => Ok(total),
        None => Err(ErrorCode::ArithmeticOverflow),
    }
}

/// Computes `floor(a * b / divisor)` through a 128-bit product.  A zero
/// divisor is `InvalidMarketState`; a quotient that does not fit in 64 bits
/// is `ArithmeticOverflow`.
pub fn mul_div(a: u64, b: u64, divisor: u64) -> (quotient: Result<u64, ErrorCode>)
    ensures
        quotient == ratio_or_fault(a, b, divisor),
{
    if divisor == 0 {
        return Err(ErrorCode::InvalidMarketState);
    }
    assert(a * b <= u128::MAX) by (nonlinear_arith)
        requires
            a <= u64::MAX,
            b <= u64::MAX,
    ;
    let product: u128 = (a as u128) * (b as u128);
    let wide: u128 = product / (divisor as u128);
    if wide > u64::MAX as u128 {
        Err(ErrorCode::ArithmeticOverflow)
    } else {
        Ok(wide as u64)
    }
}

/// A floored ratio never exceeds the factor it scales when the other factor
/// is at most the divisor.
pub proof fn lemma_ratio_bounded(a: int, b: int, divisor: int)
    requires
        0 <= a <= divisor,
        0 <= b,
        0 < divisor,
    ensures
        0 <= (a * b) / divisor <= b,
{
    assert(a * b <= divisor * b) by (nonlinear_arith)
        requires
            0 <= a <= divisor,
            0 <= b,
    ;
    assert(0 <= a * b) by (nonlinear_arith)
        requires
            0 <= a,
            0 <= b,
    ;
    vstd::arithmetic::div_mod::lemma_div_is_ordered(a * b, divisor * b, divisor);
    vstd::arithmetic::div_mod::lemma_div_is_ordered(0, a * b, divisor);
    vstd::arithmetic::div_mod::lemma_div_multiples_vanish(b, divisor);
}

/// Flooring loses value, never creates it: the floored ratio times the
/// divisor is at most the product it came from.
pub proof fn lemma_ratio_floor(a: int, b: int, divisor: int)
    requires
        0 <= a,
        0 <= b,
        0 < divisor,
    ensures
        0 <= (a * b) / divisor,
        ((a * b) / divisor) * divisor <= a * b,
{
    assert(0 <= a * b) by (nonlinear_arith)
        requires
            0 <= a,
            0 <= b,
    ;
    vstd::arithmetic::div_mod::lemma_fundamental_div_mod(a * b, divisor);
    vstd::arithmetic::div_mod::lemma_mod_bound(a * b, divisor);
    vstd::arithmetic::div_mod::lemma_div_pos_is_pos(a * b, divisor);
    assert(((a * b) / divisor) * divisor == divisor * ((a * b) / divisor)) by (nonlinear_arith);
}

} // verus!
