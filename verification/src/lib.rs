//! Accounting engine of a binary-outcome prediction market.
//!
//! The crate prices shares of a YES/NO question, keeps one record per market
//! and one per participant, resolves a market on the outcome its oracle
//! reports, and pays winners pro rata from the market's pool.  Every
//! operation is a function from records and plain values to records and
//! plain values: reading the clock, storing records and moving value are the
//! caller's business.
//!
//! Shares are issued at a fixed rate of one share per unit deposited.  There
//! is no price impact: the probability a market shows follows the share
//! totals and has no effect on what a deposit buys.
//!
//! - [`arith`]: overflow-checked sums and 128-bit-wide ratios.
//! - [`pricing`]: shares issued for a deposit, probability shown.
//! - [`market`]: the market record; creating, betting, repricing, resolving.
//! - [`position`]: the record of one participant in one market.
//! - [`settlement`]: payouts and claims.
//! - [`book`] and [`laws`]: one market with all its positions as ghost
//!   state, and what is proved of every sequence of operations on it.

pub mod arith;
pub mod book;
pub mod error;
pub mod identity;
pub mod laws;
pub mod market;
pub mod position;
pub mod pricing;
pub mod settlement;

pub use error::ErrorCode;
pub use identity::Identity;
pub use market::{
    create_market, place_bet, resolve_market, update_price, Market, MarketPhase, MAX_QUESTION_LEN,
};
pub use position::UserPosition;
pub use pricing::{calculate_probability, calculate_shares, EVEN_ODDS, PROBABILITY_SCALE};
pub use settlement::claim_winnings;
