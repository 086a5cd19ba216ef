//! The faults an operation can end in.

use vstd::prelude::*;

verus! {

/// Why an operation was refused.  A refused operation changes nothing.
#[derive(Clone, Copy, Debug, PartialEq, Eq, Structural)]
pub enum ErrorCode {
    QuestionTooLong,
    IdTooLong,
    InvalidLiquidity,
    InvalidEndTime,
    MarketResolved,
    MarketEnded,
    InvalidAmount,
    InvalidProbability,
    AlreadyResolved,
    MarketNotEnded,
    NotResolved,
    AlreadyClaimed,
    NoWinnings,
    ArithmeticOverflow,
    InsufficientFunds,
    InvalidMarketState,
    Unauthorized,
}

impl ErrorCode {
    /// The text shown for each fault.
    pub open spec fn message_text(self) -> Seq<char> {
        match self {
            ErrorCode::QuestionTooLong => "Question exceeds 200 characters"@,
            ErrorCode::IdTooLong => "Market ID exceeds 50 characters"@,
            ErrorCode::InvalidLiquidity => "Invalid liquidity parameter"@,
            ErrorCode::InvalidEndTime => "Invalid end time"@,
            ErrorCode::MarketResolved => "Market already resolved"@,
            ErrorCode::MarketEnded => "Market has ended"@,
            ErrorCode::InvalidAmount => "Invalid bet amount"@,
            ErrorCode::InvalidProbability => "Invalid probability value"@,
            ErrorCode::AlreadyResolved => "Market already resolved"@,
            ErrorCode::MarketNotEnded => "Market not ended yet"@,
            ErrorCode::NotResolved => "Market not resolved"@,
            ErrorCode::AlreadyClaimed => "Already claimed"@,
            ErrorCode::NoWinnings => "No winnings to claim"@,
            ErrorCode::ArithmeticOverflow => "Arithmetic overflow or underflow"@,
            ErrorCode::InsufficientFunds => "Insufficient funds in vault"@,
            ErrorCode::InvalidMarketState => "Invalid market state"@,
            ErrorCode::Unauthorized => "Caller is not authorized"@,
        }
    }

    /// A human-readable description of the fault.
    pub fn message(&self) -> (text: &'static str)
        ensures
            text@ == self.message_text(),
    {
        match self {
            ErrorCode::QuestionTooLong => "Question exceeds 200 characters",
            ErrorCode::IdTooLong => "Market ID exceeds 50 characters",
            ErrorCode::InvalidLiquidity => "Invalid liquidity parameter",
            ErrorCode::InvalidEndTime => "Invalid end time",
            ErrorCode::MarketResolved => "Market already resolved",
            ErrorCode::MarketEnded => "Market has ended",
            ErrorCode::InvalidAmount => "Invalid bet amount",
            ErrorCode::InvalidProbability => "Invalid probability value",
            ErrorCode::AlreadyResolved => "Market already resolved",
            ErrorCode::MarketNotEnded => "Market not ended yet",
            ErrorCode::NotResolved => "Market not resolved",
            ErrorCode::AlreadyClaimed => "Already claimed",
            ErrorCode::NoWinnings => "No winnings to claim",
            ErrorCode::ArithmeticOverflow => "Arithmetic overflow or underflow",
            ErrorCode::InsufficientFunds => "Insufficient funds in vault",
            ErrorCode::InvalidMarketState => "Invalid market state",
            ErrorCode::Unauthorized => "Caller is not authorized",
        }
    }
}

} // verus!
