//! The settlement engine: what a resolved market owes a position, and the
//! claim that pays it.

use vstd::prelude::*;
use crate::arith::{checked_add, mul_div};
use crate::error::ErrorCode;
use crate::identity::Identity;
use crate::market::Market;
use crate::position::UserPosition;

verus! {

/// What a resolved market owes a position: the pool total split in
/// proportion to the shares held on the winning side, rounded down.
pub open spec fn payout_of(market: Market, position: UserPosition) -> int {
    (position.shares_on(market.outcome) * market.total_liquidity) / (market.shares_on(
        market.outcome,
    ) as int)
}

/// Why `claim_winnings` refuses a claim, if it does, on a pool that holds
/// `pool` for a participant who holds `balance`.
pub open spec fn claim_fault(
    market: Market,
    position: UserPosition,
    market_id: Identity,
    caller: Identity,
    pool: u64,
    balance: u64,
) -> Option<ErrorCode> {
    if !position.belongs_to(market_id, caller) {
        Some(ErrorCode::Unauthorized)
    } else if !market.resolved {
        Some(ErrorCode::NotResolved)
    } else if position.claimed {
        Some(ErrorCode::AlreadyClaimed)
    } else if position.shares_on(market.outcome) == 0 {
        Some(ErrorCode::NoWinnings)
    } else if market.shares_on(market.outcome) == 0 {
        Some(ErrorCode::InvalidMarketState)
    } else if payout_of(market, position) > u64::MAX {
        Some(ErrorCode::ArithmeticOverflow)
    } else if pool < payout_of(market, position) {
        Some(ErrorCode::InsufficientFunds)
    } else if balance + payout_of(market, position) > u64::MAX {
        Some(ErrorCode::ArithmeticOverflow)
    } else {
        None
    }
}

/// Pays `caller` the winnings of `position` in the market named
/// `market_id`, out of a pool that holds `*pool` and into a balance of
/// `*balance`.
///
/// The position must be that of `caller` in this market (`Unauthorized`),
/// the market resolved (`NotResolved`) and the position not yet claimed
/// (`AlreadyClaimed`).  It must hold shares of the winning side
/// (`NoWinnings`), and so must the market (`InvalidMarketState`).  The
/// payout is the pool total times the position's winning shares over the
/// market's, rounded down; it must fit in 64 bits (`ArithmeticOverflow`),
/// the pool must hold it (`InsufficientFunds`) and the balance must have
/// room for it (`ArithmeticOverflow`).  The checks are made in this order.
/// On success the pool is debited, the balance credited, the position
/// marked as claimed, and the payout returned.  A refused claim changes
/// nothing.  The market's record is never changed by a claim.
pub fn claim_winnings(
    market: &Market,
    position: &mut UserPosition,
    market_id: Identity,
    caller: Identity,
    pool: &mut u64,
    balance: &mut u64,
) -> (claimed: Result<u64, ErrorCode>)
    ensures
        ({
            let fault = claim_fault(
                *market,
                *old(position),
                market_id,
                caller,
                *old(pool),
                *old(balance),
            );
            match claimed {
                Ok(payout) => {
                    &&& fault is None
                    &&& payout == payout_of(*market, *old(position))
                    &&& *final(position) == old(position).settled()
                    &&& *final(pool) == *old(pool) - payout
                    &&& *final(balance) == *old(balance) + payout
                },
                Err(refusal) => {
                    &&& fault == Some(refusal)
                    &&& *final(position) == *old(position)
                    &&& *final(pool) == *old(pool)
                    &&& *final(balance) == *old(balance)
                },
            }
        }),
{
    if !position.is_held_by(&market_id, &caller) {
        return Err(ErrorCode::Unauthorized);
    }
    if !market.resolved {
        return Err(ErrorCode::NotResolved);
    }
    if position.claimed {
        return Err(ErrorCode::AlreadyClaimed);
    }
    let winning_shares = position.shares_held(market.outcome);
    let total_winning_shares = market.shares_held(market.outcome);
    if winning_shares == 0 {
        return Err(ErrorCode::NoWinnings);
    }
    if total_winning_shares == 0 {
        return Err(ErrorCode::InvalidMarketState);
    }
    let payout = mul_div(winning_shares, market.total_liquidity, total_winning_shares)?;
    if *pool < payout {
        return Err(ErrorCode::InsufficientFunds);
    }
    let credited = checked_add(*balance, payout)?;
    *pool = *pool - payout;
    *balance = credited;
    position.claimed = true;
    Ok(payout)
}

} // verus!
