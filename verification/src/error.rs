//! The reasons for which an operation is refused.

use vstd::prelude::*;

verus! {

/// Why an operation was refused. A refused operation changes no record and
/// moves no value.
#[derive(Clone, Copy, Debug, PartialEq, Eq, Structural)]
pub enum ErrorCode {
    /// The caller is not the authority, or not the owner of the position.
    Unauthorized,
    /// The cutoff has passed.
    BettingClosed,
    /// The market has been resolved and cannot be resolved or rescheduled.
    AlreadyResolved,
    /// The market has been resolved and takes no more bets.
    MarketResolved,
    /// The asset presented is not the one the market accepts.
    WrongMint,
    /// The position's cumulative stake would pass the per-position cap.
    BetExceedsLimit,
    /// A quantity does not fit the width it is stored in.
    Overflow,
    /// The market has not been resolved yet.
    NotResolved,
    /// The position is owed nothing.
    NoPayout,
    /// The position has been claimed before.
    AlreadyClaimed,
    /// The position belongs to another market.
    WrongMarket,
    /// The position is committed to the other outcome.
    CannotSwitchSide,
    /// The amount is zero.
    InvalidAmount,
    /// No fees have accrued.
    NoFees,
    /// The proposed cutoff is not in the future.
    InvalidCutoff,
    /// The cutoff has not passed yet.
    TooEarly,
    /// The outcome is neither `Yes` nor `No`.
    InvalidOutcomeArg,
}

/// The five families of refusal.
#[derive(Clone, Copy, Debug, PartialEq, Eq, Structural)]
pub enum ErrorClass {
    Authorization,
    Timing,
    State,
    Validation,
    Arithmetic,
}

impl ErrorCode {
    /// The family a refusal belongs to.
    pub open spec fn class_of(self) -> ErrorClass {
        match self {
            ErrorCode::Unauthorized => ErrorClass::Authorization,
            ErrorCode::BettingClosed | ErrorCode::InvalidCutoff | ErrorCode::TooEarly =>
                ErrorClass::Timing,
            ErrorCode::AlreadyResolved
            | ErrorCode::MarketResolved
            | ErrorCode::NotResolved
            | ErrorCode::AlreadyClaimed
            | ErrorCode::WrongMarket => ErrorClass::State,
            ErrorCode::InvalidAmount
            | ErrorCode::WrongMint
            | ErrorCode::CannotSwitchSide
            | ErrorCode::InvalidOutcomeArg => ErrorClass::Validation,
            ErrorCode::Overflow
            | ErrorCode::BetExceedsLimit
            | ErrorCode::NoPayout
            | ErrorCode::NoFees => ErrorClass::Arithmetic,
        }
    }

    /// The family a refusal belongs to.
    pub fn class(&self) -> (c: ErrorClass)
        ensures
            c == self.class_of(),
    {
        match self {
            ErrorCode::Unauthorized => ErrorClass::Authorization,
            ErrorCode::BettingClosed | ErrorCode::InvalidCutoff | ErrorCode::TooEarly =>
                ErrorClass::Timing,
            ErrorCode::AlreadyResolved
            | ErrorCode::MarketResolved
            | ErrorCode::NotResolved
            | ErrorCode::AlreadyClaimed
            | ErrorCode::WrongMarket => ErrorClass::State,
            ErrorCode::InvalidAmount
            | ErrorCode::WrongMint
            | ErrorCode::CannotSwitchSide
            | ErrorCode::InvalidOutcomeArg => ErrorClass::Validation,
            ErrorCode::Overflow
            | ErrorCode::BetExceedsLimit
            | ErrorCode::NoPayout
            | ErrorCode::NoFees => ErrorClass::Arithmetic,
        }
    }

    /// The text shown to a caller for this refusal.
    pub open spec fn message_text(self) -> Seq<char> {
        match self {
            ErrorCode::Unauthorized => "Only the owner can perform this action."@,
            ErrorCode::BettingClosed => "Betting period is closed."@,
            ErrorCode::AlreadyResolved => "Market already resolved."@,
            ErrorCode::MarketResolved => "This market is resolved."@,
            ErrorCode::WrongMint => "Wrong bet mint for this market."@,
            ErrorCode::BetExceedsLimit => "Bet exceeds the 100-token limit."@,
            ErrorCode::Overflow => "Arithmetic overflow."@,
            ErrorCode::NotResolved => "Market not resolved."@,
            ErrorCode::NoPayout => "No payout for this position."@,
            ErrorCode::AlreadyClaimed => "Position already claimed."@,
            ErrorCode::WrongMarket => "Wrong market for position."@,
            ErrorCode::CannotSwitchSide => "Cannot switch sides after placing a bet."@,
            ErrorCode::InvalidAmount => "Invalid amount."@,
            ErrorCode::NoFees => "No fees available to sweep."@,
            ErrorCode::InvalidCutoff => "New cutoff must be in the future."@,
            ErrorCode::TooEarly => "Too early to resolve."@,
            ErrorCode::InvalidOutcomeArg => "Invalid outcome argument."@,
        }
    }

    /// The text shown to a caller for this refusal.
    pub fn message(&self) -> (text: &'static str)
        ensures
            text@ == self.message_text(),
    {
        match self {
            ErrorCode::Unauthorized => "Only the owner can perform this action.",
            ErrorCode::BettingClosed => "Betting period is closed.",
            ErrorCode::AlreadyResolved => "Market already resolved.",
            ErrorCode::MarketResolved => "This market is resolved.",
            ErrorCode::WrongMint => "Wrong bet mint for this market.",
            ErrorCode::BetExceedsLimit => "Bet exceeds the 100-token limit.",
            ErrorCode::Overflow => "Arithmetic overflow.",
            ErrorCode::NotResolved => "Market not resolved.",
            ErrorCode::NoPayout => "No payout for this position.",
            ErrorCode::AlreadyClaimed => "Position already claimed.",
            ErrorCode::WrongMarket => "Wrong market for position.",
            ErrorCode::CannotSwitchSide => "Cannot switch sides after placing a bet.",
            ErrorCode::InvalidAmount => "Invalid amount.",
            ErrorCode::NoFees => "No fees available to sweep.",
            ErrorCode::InvalidCutoff => "New cutoff must be in the future.",
            ErrorCode::TooEarly => "Too early to resolve.",
            ErrorCode::InvalidOutcomeArg => "Invalid outcome argument.",
        }
    }
}

} // verus!
