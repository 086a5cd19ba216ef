//! The market ledger: one market's record and the operations that move it
//! through its life.
//!
//! A market is open until its end time, ended from then on, and resolved
//! once its oracle has reported the outcome.  Only the last of the three is
//! stored; the other two follow from the clock reading handed to each
//! operation.

use vstd::prelude::*;
use crate::arith::checked_add;
use crate::error::ErrorCode;
use crate::identity::Identity;
use crate::position::UserPosition;
use crate::pricing::{
    calculate_probability,
    calculate_shares,
    probability_of,
    shares_for,
    EVEN_ODDS,
    PROBABILITY_SCALE,
};

verus! {

/// The longest question a market can ask, in bytes of UTF-8.
pub const MAX_QUESTION_LEN: usize = 200;

/// The length of a question as it is measured against `MAX_QUESTION_LEN`.
pub open spec fn question_len(question: Seq<char>) -> nat {
    vstd::utf8::encode_utf8(question).len()
}

/// Where a market stands in its life at a given time.
#[derive(Clone, Copy, Debug, PartialEq, Eq, Structural)]
pub enum MarketPhase {
    /// Bets are taken.
    Open,
    /// The end time has passed and the outcome is awaited.
    Ended,
    /// The outcome is recorded.  Nothing follows this phase.
    Resolved,
}

/// One market: its question, its lifecycle and its aggregate accounts.
#[derive(Clone, Debug, PartialEq, Eq)]
pub struct Market {
    pub creator: Identity,
    pub question: String,
    /// The sensitivity constant of the market maker, and the value its
    /// creator put into the pool.
    pub liquidity_param: u64,
    /// Betting stops at this time, in seconds.
    pub end_time: i64,
    pub resolved: bool,
    /// The reported outcome.  It means something only once `resolved`.
    pub outcome: bool,
    pub total_yes_shares: u64,
    pub total_no_shares: u64,
    /// The YES probability shown, scaled by `PROBABILITY_SCALE`.
    pub current_yes_probability: u64,
    /// Everything ever paid into the pool.
    pub total_liquidity: u64,
    /// The only identity that may reprice or resolve the market.
    pub oracle_authority: Identity,
    pub created_at: i64,
}

impl Market {
    /// What holds of every market that was created here and changed only by
    /// the operations of this crate.
    pub open spec fn wf(self) -> bool {
        &&& question_len(self.question@) <= MAX_QUESTION_LEN
        &&& self.liquidity_param > 0
        &&& self.end_time > self.created_at
        &&& self.current_yes_probability <= PROBABILITY_SCALE
        &&& self.total_liquidity >= self.liquidity_param
    }

    /// The market as `create_market` makes it.
    pub open spec fn created(
        creator: Identity,
        question: String,
        liquidity_param: u64,
        end_time: i64,
        now: i64,
    ) -> Market {
        Market {
            creator,
            question,
            liquidity_param,
            end_time,
            resolved: false,
            outcome: false,
            total_yes_shares: 0,
            total_no_shares: 0,
            current_yes_probability: EVEN_ODDS,
            total_liquidity: liquidity_param,
            oracle_authority: creator,
            created_at: now,
        }
    }

    /// The phase of the market when the clock reads `now`.
    pub open spec fn phase_at(self, now: i64) -> MarketPhase {
        if self.resolved {
            MarketPhase::Resolved
        } else if now >= self.end_time {
            MarketPhase::Ended
        } else {
            MarketPhase::Open
        }
    }

    /// The share total of the side `outcome` names.
    pub open spec fn shares_on(self, outcome: bool) -> u64 {
        if outcome {
            self.total_yes_shares
        } else {
            self.total_no_shares
        }
    }

    /// Whether `shares` bought with `amount` can be added without a total
    /// leaving 64 bits: neither the side's shares, nor the pool, nor the
    /// shares of both sides together, which the probability divides by.
    pub open spec fn bet_fits(self, shares: u64, amount: u64, is_yes: bool) -> bool {
        &&& self.shares_on(is_yes) + shares <= u64::MAX
        &&& self.total_liquidity + amount <= u64::MAX
        &&& self.total_yes_shares + self.total_no_shares + shares <= u64::MAX
    }

    /// The market after `shares` bought with `amount` were added on one
    /// side: the side's total and the pool grow, and the probability shown
    /// follows the new totals.
    pub open spec fn with_bet(self, shares: u64, amount: u64, is_yes: bool) -> Market {
        let yes = if is_yes {
            (self.total_yes_shares + shares) as u64
        } else {
            self.total_yes_shares
        };
        let no = if is_yes {
            self.total_no_shares
        } else {
            (self.total_no_shares + shares) as u64
        };
        Market {
            total_yes_shares: yes,
            total_no_shares: no,
            total_liquidity: (self.total_liquidity + amount) as u64,
            current_yes_probability: probability_of(yes, no) as u64,
            ..self
        }
    }

    /// The market showing `probability` and otherwise unchanged.
    pub open spec fn repriced(self, probability: u64) -> Market {
        Market { current_yes_probability: probability, ..self }
    }

    /// The market resolved to `outcome` and otherwise unchanged.
    pub open spec fn resolved_to(self, outcome: bool) -> Market {
        Market { resolved: true, outcome, ..self }
    }

    /// The phase of the market when the clock reads `now`.
    pub fn phase(&self, now: i64) -> (phase: MarketPhase)
        ensures
            phase == self.phase_at(now),
    {
        if self.resolved {
            MarketPhase::Resolved
        } else if now >= self.end_time {
            MarketPhase::Ended
        } else {
            MarketPhase::Open
        }
    }

    /// The share total of the side `outcome` names.
    pub fn shares_held(&self, outcome: bool) -> (shares: u64)
        ensures
            shares == self.shares_on(outcome),
    {
        if outcome {
            self.total_yes_shares
        } else {
            self.total_no_shares
        }
    }
}

/// Why `create_market` refuses its arguments, if it does.
pub open spec fn creation_fault(
    question: Seq<char>,
    liquidity_param: u64,
    end_time: i64,
    now: i64,
) -> Option<ErrorCode> {
    if question_len(question) > MAX_QUESTION_LEN {
        Some(ErrorCode::QuestionTooLong)
    } else if liquidity_param == 0 {
        Some(ErrorCode::InvalidLiquidity)
    } else if end_time <= now {
        Some(ErrorCode::InvalidEndTime)
    } else {
        None
    }
}

/// Why `place_bet` refuses a bet, if it does.
pub open spec fn bet_fault(
    market: Market,
    position: UserPosition,
    market_id: Identity,
    user: Identity,
    amount: u64,
    is_yes: bool,
    now: i64,
) -> Option<ErrorCode> {
    let shares = shares_for(
        amount,
        is_yes,
        market.total_yes_shares,
        market.total_no_shares,
        market.liquidity_param,
    );
    if !position.belongs_to(market_id, user) {
        Some(ErrorCode::Unauthorized)
    } else if market.resolved {
        Some(ErrorCode::MarketResolved)
    } else if now >= market.end_time {
        Some(ErrorCode::MarketEnded)
    } else if amount == 0 {
        Some(ErrorCode::InvalidAmount)
    } else if !market.bet_fits(shares, amount, is_yes) || !position.bet_fits(
        shares,
        amount,
        is_yes,
    ) {
        Some(ErrorCode::ArithmeticOverflow)
    } else {
        None
    }
}

/// Why `update_price` refuses a new probability, if it does.
pub open spec fn reprice_fault(market: Market, caller: Identity, new_probability: u64) -> Option<
    ErrorCode,
> {
    if caller != market.oracle_authority {
        Some(ErrorCode::Unauthorized)
    } else if market.resolved {
        Some(ErrorCode::MarketResolved)
    } else if new_probability > PROBABILITY_SCALE {
        Some(ErrorCode::InvalidProbability)
    } else {
        None
    }
}

/// Why `resolve_market` refuses to resolve, if it does.
pub open spec fn resolution_fault(market: Market, caller: Identity, now: i64) -> Option<ErrorCode> {
    if caller != market.oracle_authority {
        Some(ErrorCode::Unauthorized)
    } else if market.resolved {
        Some(ErrorCode::AlreadyResolved)
    } else if now < market.end_time {
        Some(ErrorCode::MarketNotEnded)
    } else {
        None
    }
}

/// Creates a market that asks `question` and closes at `end_time`, when the
/// clock reads `now`.
///
/// The question may take up to `MAX_QUESTION_LEN` bytes, the liquidity
/// parameter must be positive and the end time must lie after `now`; each
/// is checked in this order.  The new market is unresolved, holds no
/// shares, shows even odds and has its creator as oracle.  Its pool starts
/// at `liquidity_param`, which the caller has to move from the creator into
/// the pool.
pub fn create_market(
    creator: Identity,
    question: String,
    liquidity_param: u64,
    end_time: i64,
    now: i64,
) -> (created: Result<Market, ErrorCode>)
    ensures
        ({
            let fault = creation_fault(question@, liquidity_param, end_time, now);
            match created {
                Ok(market) => {
                    &&& fault is None
                    &&& market == Market::created(creator, question, liquidity_param, end_time, now)
                    &&& market.wf()
                },
                Err(refusal) => fault == Some(refusal),
            }
        }),
{
    if question.as_str().as_bytes().len() > MAX_QUESTION_LEN {
        return Err(ErrorCode::QuestionTooLong);
    }
    if liquidity_param == 0 {
        return Err(ErrorCode::InvalidLiquidity);
    }
    if end_time <= now {
        return Err(ErrorCode::InvalidEndTime);
    }
    Ok(
        Market {
            creator,
            question,
            liquidity_param,
            end_time,
            resolved: false,
            outcome: false,
            total_yes_shares: 0,
            total_no_shares: 0,
            current_yes_probability: EVEN_ODDS,
            total_liquidity: liquidity_param,
            oracle_authority: creator,
            created_at: now,
        },
    )
}

/// Takes a bet of `amount` on one side from `user`, whose position in the
/// market named `market_id` is `position`, when the clock reads `now`.
///
/// The position must be that of `user` in this market (`Unauthorized`),
/// the market open (`MarketResolved`, then `MarketEnded`) and the amount
/// positive (`InvalidAmount`).  The shares issued are added to the side's
/// total and to the position, the amount to the pool total and to the
/// position's deposits, and the probability shown follows the new totals.
/// Where a sum leaves 64 bits the bet fails with `ArithmeticOverflow`.  A
/// refused bet changes neither record.  On success the shares issued are
/// returned, and the caller has to move `amount` from the user into the
/// pool.
pub fn place_bet(
    market: &mut Market,
    position: &mut UserPosition,
    market_id: Identity,
    user: Identity,
    amount: u64,
    is_yes: bool,
    now: i64,
) -> (issued: Result<u64, ErrorCode>)
    ensures
        ({
            let fault = bet_fault(*old(market), *old(position), market_id, user, amount, is_yes, now);
            let shares = shares_for(
                amount,
                is_yes,
                old(market).total_yes_shares,
                old(market).total_no_shares,
                old(market).liquidity_param,
            );
            match issued {
                Ok(bought) => {
                    &&& fault is None
                    &&& bought == shares
                    &&& *final(market) == old(market).with_bet(shares, amount, is_yes)
                    &&& *final(position) == old(position).with_bet(shares, amount, is_yes)
                },
                Err(refusal) => {
                    &&& fault == Some(refusal)
                    &&& *final(market) == *old(market)
                    &&& *final(position) == *old(position)
                },
            }
        }),
        old(market).wf() ==> final(market).wf(),
{
    if !position.is_held_by(&market_id, &user) {
        return Err(ErrorCode::Unauthorized);
    }
    match market.phase(now) {
        MarketPhase::Resolved => {
            return Err(ErrorCode::MarketResolved);
        },
        MarketPhase::Ended => {
            return Err(ErrorCode::MarketEnded);
        },
        MarketPhase::Open => {},
    }
    if amount == 0 {
        return Err(ErrorCode::InvalidAmount);
    }
    let shares = calculate_shares(
        amount,
        is_yes,
        market.total_yes_shares,
        market.total_no_shares,
        market.liquidity_param,
    )?;
    let side = checked_add(market.shares_held(is_yes), shares)?;
    let (yes, no) = if is_yes {
        (side, market.total_no_shares)
    } else {
        (market.total_yes_shares, side)
    };
    let mut staked = *position;
    staked.record_bet(shares, amount, is_yes)?;
    let liquidity = checked_add(market.total_liquidity, amount)?;
    let probability = calculate_probability(yes, no, market.liquidity_param)?;
    market.total_yes_shares = yes;
    market.total_no_shares = no;
    market.total_liquidity = liquidity;
    market.current_yes_probability = probability;
    *position = staked;
    Ok(shares)
}

/// Sets the probability the market shows to what its oracle reports.
///
/// The caller must be the market's oracle (`Unauthorized`), the market
/// unresolved (`MarketResolved`) and the probability at most
/// `PROBABILITY_SCALE` (`InvalidProbability`), checked in this order.  Only
/// the probability shown changes: shares and pool stay as they are.  A
/// refused call changes nothing.
pub fn update_price(market: &mut Market, caller: Identity, new_probability: u64) -> (updated:
    Result<(), ErrorCode>)
    ensures
        ({
            let fault = reprice_fault(*old(market), caller, new_probability);
            match updated {
                Ok(_) => {
                    &&& fault is None
                    &&& *final(market) == old(market).repriced(new_probability)
                },
                Err(refusal) => {
                    &&& fault == Some(refusal)
                    &&& *final(market) == *old(market)
                },
            }
        }),
        old(market).wf() ==> final(market).wf(),
{
    if !caller.same_as(&market.oracle_authority) {
        return Err(ErrorCode::Unauthorized);
    }
    if market.resolved {
        return Err(ErrorCode::MarketResolved);
    }
    if new_probability > PROBABILITY_SCALE {
        return Err(ErrorCode::InvalidProbability);
    }
    market.current_yes_probability = new_probability;
    Ok(())
}

/// Records the outcome the oracle reports, when the clock reads `now`.
///
/// The caller must be the market's oracle (`Unauthorized`), the market
/// unresolved (`AlreadyResolved`) and its end time reached
/// (`MarketNotEnded`), checked in this order.  The market becomes
/// resolved, for good, with the outcome given; nothing else changes.  A
/// refused call changes nothing.
pub fn resolve_market(market: &mut Market, caller: Identity, outcome: bool, now: i64) -> (resolved:
    Result<(), ErrorCode>)
    ensures
        ({
            let fault = resolution_fault(*old(market), caller, now);
            match resolved {
                Ok(_) => {
                    &&& fault is None
                    &&& *final(market) == old(market).resolved_to(outcome)
                },
                Err(refusal) => {
                    &&& fault == Some(refusal)
                    &&& *final(market) == *old(market)
                },
            }
        }),
        old(market).wf() ==> final(market).wf(),
{
    if !caller.same_as(&market.oracle_authority) {
        return Err(ErrorCode::Unauthorized);
    }
    match market.phase(now) {
        MarketPhase::Resolved => {
            return Err(ErrorCode::AlreadyResolved);
        },
        MarketPhase::Open => {
            return Err(ErrorCode::MarketNotEnded);
        },
        MarketPhase::Ended => {},
    }
    market.resolved = true;
    market.outcome = outcome;
    Ok(())
}

} // verus!
