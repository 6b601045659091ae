use yesno_bets::{ErrorClass, ErrorCode, Outcome};

#[test]
fn outcome_ordinals() {
    assert_eq!(Outcome::Unset.to_u8(), 0);
    assert_eq!(Outcome::Yes.to_u8(), 1);
    assert_eq!(Outcome::No.to_u8(), 2);
    assert_eq!(Outcome::Void.to_u8(), 3);
}

#[test]
fn outcome_is_read_back_from_its_ordinal() {
    assert_eq!(Outcome::from_u8(0), Some(Outcome::Unset));
    assert_eq!(Outcome::from_u8(1), Some(Outcome::Yes));
    assert_eq!(Outcome::from_u8(2), Some(Outcome::No));
    assert_eq!(Outcome::from_u8(3), Some(Outcome::Void));
}

#[test]
fn unknown_ordinals_are_rejected() {
    assert_eq!(Outcome::from_u8(4), None);
    assert_eq!(Outcome::from_u8(7), None);
    assert_eq!(Outcome::from_u8(255), None);
}

#[test]
fn ordinals_round_trip() {
    for raw in 0u8..=255 {
        match Outcome::from_u8(raw) {
            Some(outcome) => assert_eq!(outcome.to_u8(), raw),
            None => assert!(raw > 3),
        }
    }
}

#[test]
fn only_yes_and_no_are_sides() {
    assert!(Outcome::Yes.is_yes_or_no());
    assert!(Outcome::No.is_yes_or_no());
    assert!(!Outcome::Unset.is_yes_or_no());
    assert!(!Outcome::Void.is_yes_or_no());
}

#[test]
fn error_messages() {
    assert_eq!(ErrorCode::Unauthorized.message(), "Only the owner can perform this action.");
    assert_eq!(ErrorCode::BettingClosed.message(), "Betting period is closed.");
    assert_eq!(ErrorCode::AlreadyResolved.message(), "Market already resolved.");
    assert_eq!(ErrorCode::MarketResolved.message(), "This market is resolved.");
    assert_eq!(ErrorCode::WrongMint.message(), "Wrong bet mint for this market.");
    assert_eq!(ErrorCode::BetExceedsLimit.message(), "Bet exceeds the 100-token limit.");
    assert_eq!(ErrorCode::Overflow.message(), "Arithmetic overflow.");
    assert_eq!(ErrorCode::NotResolved.message(), "Market not resolved.");
    assert_eq!(ErrorCode::NoPayout.message(), "No payout for this position.");
    assert_eq!(ErrorCode::AlreadyClaimed.message(), "Position already claimed.");
    assert_eq!(ErrorCode::WrongMarket.message(), "Wrong market for position.");
    assert_eq!(ErrorCode::CannotSwitchSide.message(), "Cannot switch sides after placing a bet.");
    assert_eq!(ErrorCode::InvalidAmount.message(), "Invalid amount.");
    assert_eq!(ErrorCode::NoFees.message(), "No fees available to sweep.");
    assert_eq!(ErrorCode::InvalidCutoff.message(), "New cutoff must be in the future.");
    assert_eq!(ErrorCode::TooEarly.message(), "Too early to resolve.");
    assert_eq!(ErrorCode::InvalidOutcomeArg.message(), "Invalid outcome argument.");
}

#[test]
fn error_classes() {
    assert_eq!(ErrorCode::Unauthorized.class(), ErrorClass::Authorization);
    assert_eq!(ErrorCode::BettingClosed.class(), ErrorClass::Timing);
    assert_eq!(ErrorCode::InvalidCutoff.class(), ErrorClass::Timing);
    assert_eq!(ErrorCode::TooEarly.class(), ErrorClass::Timing);
    assert_eq!(ErrorCode::AlreadyResolved.class(), ErrorClass::State);
    assert_eq!(ErrorCode::MarketResolved.class(), ErrorClass::State);
    assert_eq!(ErrorCode::NotResolved.class(), ErrorClass::State);
    assert_eq!(ErrorCode::AlreadyClaimed.class(), ErrorClass::State);
    assert_eq!(ErrorCode::WrongMarket.class(), ErrorClass::State);
    assert_eq!(ErrorCode::InvalidAmount.class(), ErrorClass::Validation);
    assert_eq!(ErrorCode::WrongMint.class(), ErrorClass::Validation);
    assert_eq!(ErrorCode::CannotSwitchSide.class(), ErrorClass::Validation);
    assert_eq!(ErrorCode::InvalidOutcomeArg.class(), ErrorClass::Validation);
    assert_eq!(ErrorCode::Overflow.class(), ErrorClass::Arithmetic);
    assert_eq!(ErrorCode::BetExceedsLimit.class(), ErrorClass::Arithmetic);
    assert_eq!(ErrorCode::NoPayout.class(), ErrorClass::Arithmetic);
    assert_eq!(ErrorCode::NoFees.class(), ErrorClass::Arithmetic);
}
