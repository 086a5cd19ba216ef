//! Pricing: what a deposit buys, and the probability a market shows.
//!
//! Shares are issued at a fixed rate, one share per unit deposited, whatever
//! the side and whatever the market holds.  A deposit therefore has no price
//! impact, and the probability below only reports how the shares split.

use vstd::prelude::*;
use crate::arith::{checked_add, lemma_ratio_bounded, mul_div};
use crate::error::ErrorCode;

verus! {

/// The fixed-point scale of a probability: `PROBABILITY_SCALE` stands for 1.
pub const PROBABILITY_SCALE: u64 = 1_000_000;

/// The probability a market with no shares shows: one half.
pub const EVEN_ODDS: u64 = 500_000;

/// Shares issued for a deposit of `amount`: one per unit.
pub open spec fn shares_for(
    amount: u64,
    is_yes: bool,
    total_yes: u64,
    total_no: u64,
    liquidity_param: u64,
) -> u64 {
    amount
}

/// The YES probability, scaled by `PROBABILITY_SCALE`, of a market holding
/// `yes_shares` and `no_shares`: one half with no shares at all, else the
/// floored YES fraction of all shares.
pub open spec fn probability_of(yes_shares: u64, no_shares: u64) -> int {
    if yes_shares == 0 && no_shares == 0 {
        EVEN_ODDS as int
    } else {
        (yes_shares * PROBABILITY_SCALE) / (yes_shares + no_shares)
    }
}

/// A probability is never above the scale, whatever the share totals.
pub proof fn lemma_probability_bounded(yes_shares: u64, no_shares: u64)
    ensures
        0 <= probability_of(yes_shares, no_shares) <= PROBABILITY_SCALE,
{
    if !(yes_shares == 0 && no_shares == 0) {
        lemma_ratio_bounded(
            yes_shares as int,
            PROBABILITY_SCALE as int,
            yes_shares + no_shares,
        );
    }
}

/// The shares a deposit of `amount` on one side buys.  The rate is fixed at
/// one share per unit, so the market's totals and its liquidity parameter
/// do not enter.
pub fn calculate_shares(
    amount: u64,
    is_yes: bool,
    total_yes: u64,
    total_no: u64,
    liquidity_param: u64,
) -> (shares: Result<u64, ErrorCode>)
    ensures
        shares == Ok::<u64, ErrorCode>(
            shares_for(amount, is_yes, total_yes, total_no, liquidity_param),
        ),
{
    Ok(amount)
}

/// What `calculate_probability` returns: the probability, or the fault of
/// share totals that together do not fit in 64 bits.
pub open spec fn probability_or_fault(yes_shares: u64, no_shares: u64) -> Result<u64, ErrorCode> {
    if yes_shares + no_shares > u64::MAX {
        Err(ErrorCode::ArithmeticOverflow)
    } else {
        Ok(probability_of(yes_shares, no_shares) as u64)
    }
}

/// The YES probability shown for the given share totals, scaled by
/// `PROBABILITY_SCALE`: between 0 and the scale.  Fails with
/// `ArithmeticOverflow` exactly when the two totals together do not fit in
/// 64 bits.  The liquidity parameter does not enter.
pub fn calculate_probability(yes_shares: u64, no_shares: u64, liquidity_param: u64) -> (probability:
    Result<u64, ErrorCode>)
    ensures
        probability == probability_or_fault(yes_shares, no_shares),
        probability matches Ok(p) ==> p == probability_of(yes_shares, no_shares) && p
            <= PROBABILITY_SCALE,
{
    if yes_shares == 0 && no_shares == 0 {
        return Ok(EVEN_ODDS);
    }
    let total = checked_add(yes_shares, no_shares)?;
    proof {
        lemma_probability_bounded(yes_shares, no_shares);
    }
    mul_div(yes_shares, PROBABILITY_SCALE, total)
}

} // verus!
