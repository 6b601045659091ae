use yesno_bets::instructions::{place_bet, PlaceBet, Transfer, TransferSigner};
use yesno_bets::{ErrorCode, Market, Outcome, Position, Pubkey};

fn key(byte: u8) -> Pubkey {
    Pubkey::new_from_array([byte; 32])
}

const BETTOR: u8 = 10;
const MARKET: u8 = 11;
const MINT: u8 = 12;
const VAULT: u8 = 13;
const BETTOR_ATA: u8 = 14;

fn market(total_yes: u64, total_no: u64, fees_accrued: u64) -> Market {
    Market {
        creator: key(1),
        bet_mint: key(MINT),
        vault: key(VAULT),
        vault_authority: key(4),
        cutoff_ts: 100,
        resolved: false,
        winning_outcome: Outcome::Unset,
        total_yes,
        total_no,
        fees_accrued,
    }
}

fn position(outcome: Outcome, amount: u64) -> Position {
    Position { owner: key(BETTOR), market: key(MARKET), outcome, claimed: false, amount }
}

fn bet_ctx(market: Market, position: Position) -> PlaceBet {
    PlaceBet {
        bettor: key(BETTOR),
        market_key: key(MARKET),
        market,
        bet_mint: key(MINT),
        decimals: 6,
        bettor_ata: key(BETTOR_ATA),
        vault: key(VAULT),
        position,
        now: 50,
    }
}

fn deposit(amount: u64) -> Transfer {
    Transfer {
        from: key(BETTOR_ATA),
        to: key(VAULT),
        authority: key(BETTOR),
        amount,
        signer: TransferSigner::Participant,
    }
}

#[test]
fn blank_position_is_all_zero() {
    let blank = Position::blank();
    assert_eq!(blank.owner, Pubkey::default());
    assert_eq!(blank.market, Pubkey::default());
    assert_eq!(blank.outcome, Outcome::Unset);
    assert!(!blank.claimed);
    assert_eq!(blank.amount, 0);
}

#[test]
fn deposit_of_one_thousand_credits_nine_seventy() {
    let mut ctx = bet_ctx(market(0, 0, 0), Position::blank());
    assert_eq!(place_bet(&mut ctx, Outcome::Yes, 1000), Ok(deposit(1000)));
    assert_eq!(ctx.market, market(970, 0, 30));
    assert_eq!(ctx.position, position(Outcome::Yes, 970));

    let mut ctx = bet_ctx(market(0, 0, 0), Position::blank());
    assert_eq!(place_bet(&mut ctx, Outcome::No, 1000), Ok(deposit(1000)));
    assert_eq!(ctx.market, market(0, 970, 30));
    assert_eq!(ctx.position, position(Outcome::No, 970));
}

#[test]
fn first_bet_takes_over_the_blank_position() {
    let mut stale = Position::blank();
    stale.owner = key(77);
    stale.market = key(78);
    stale.outcome = Outcome::No;
    stale.claimed = true;
    let mut ctx = bet_ctx(market(5, 5, 5), stale);
    assert_eq!(place_bet(&mut ctx, Outcome::Yes, 200), Ok(deposit(200)));
    assert_eq!(ctx.position, position(Outcome::Yes, 194));
    assert_eq!(ctx.market, market(199, 5, 11));
}

#[test]
fn later_bets_add_to_the_stake() {
    let mut ctx = bet_ctx(market(0, 0, 0), Position::blank());
    assert_eq!(place_bet(&mut ctx, Outcome::No, 1000), Ok(deposit(1000)));
    assert_eq!(place_bet(&mut ctx, Outcome::No, 34), Ok(deposit(34)));
    assert_eq!(place_bet(&mut ctx, Outcome::No, 1), Ok(deposit(1)));
    assert_eq!(ctx.position, position(Outcome::No, 970 + 33 + 1));
    assert_eq!(ctx.market, market(0, 970 + 33 + 1, 30 + 1));
}

#[test]
fn later_bets_keep_owner_market_and_claimed() {
    let mut held = position(Outcome::Yes, 10);
    held.owner = key(77);
    held.market = key(78);
    held.claimed = true;
    let mut ctx = bet_ctx(market(10, 0, 0), held);
    assert_eq!(place_bet(&mut ctx, Outcome::Yes, 100), Ok(deposit(100)));
    let mut expected = held;
    expected.amount = 107;
    assert_eq!(ctx.position, expected);
}

#[test]
fn every_unit_deposited_is_accounted_for() {
    let mut ctx = bet_ctx(market(0, 0, 0), Position::blank());
    let amounts: [u64; 6] = [1, 33, 34, 999, 10_001, 5_000_000];
    let mut gross: u64 = 0;
    for amount in amounts {
        assert_eq!(place_bet(&mut ctx, Outcome::Yes, amount), Ok(deposit(amount)));
        gross += amount;
        assert_eq!(ctx.market.total_yes + ctx.market.total_no + ctx.market.fees_accrued, gross);
        assert_eq!(ctx.market.total_yes, ctx.position.amount);
    }
    assert_eq!(ctx.market.fees_accrued, 0 + 0 + 1 + 29 + 300 + 150_000);
}

#[test]
fn zero_amount_is_invalid() {
    let mut ctx = bet_ctx(market(0, 0, 0), Position::blank());
    let before = ctx;
    assert_eq!(place_bet(&mut ctx, Outcome::Yes, 0), Err(ErrorCode::InvalidAmount));
    assert_eq!(ctx, before);
}

#[test]
fn resolved_market_takes_no_bets() {
    let mut resolved = market(700, 300, 0);
    resolved.resolved = true;
    resolved.winning_outcome = Outcome::Yes;
    let mut ctx = bet_ctx(resolved, Position::blank());
    let before = ctx;
    assert_eq!(place_bet(&mut ctx, Outcome::Yes, 1000), Err(ErrorCode::MarketResolved));
    assert_eq!(ctx, before);
}

#[test]
fn bets_close_at_the_cutoff() {
    let mut ctx = bet_ctx(market(0, 0, 0), Position::blank());
    ctx.now = 100;
    let before = ctx;
    assert_eq!(place_bet(&mut ctx, Outcome::Yes, 1000), Err(ErrorCode::BettingClosed));
    assert_eq!(ctx, before);
    ctx.now = 101;
    assert_eq!(place_bet(&mut ctx, Outcome::Yes, 1000), Err(ErrorCode::BettingClosed));
    ctx.now = 99;
    assert_eq!(place_bet(&mut ctx, Outcome::Yes, 1000), Ok(deposit(1000)));
}

#[test]
fn wrong_mint_is_refused() {
    let mut ctx = bet_ctx(market(0, 0, 0), Position::blank());
    ctx.bet_mint = key(99);
    let before = ctx;
    assert_eq!(place_bet(&mut ctx, Outcome::Yes, 1000), Err(ErrorCode::WrongMint));
    assert_eq!(ctx, before);
}

#[test]
fn cannot_switch_sides() {
    let mut ctx = bet_ctx(market(970, 0, 30), position(Outcome::Yes, 970));
    let before = ctx;
    assert_eq!(place_bet(&mut ctx, Outcome::No, 1000), Err(ErrorCode::CannotSwitchSide));
    assert_eq!(place_bet(&mut ctx, Outcome::Void, 1000), Err(ErrorCode::CannotSwitchSide));
    assert_eq!(ctx, before);
    assert_eq!(place_bet(&mut ctx, Outcome::Yes, 1000), Ok(deposit(1000)));
}

#[test]
fn stake_is_capped_at_one_hundred_tokens() {
    // Six decimals: the cap is 100_000_000 base units.
    let mut ctx = bet_ctx(market(99_999_000, 0, 0), position(Outcome::Yes, 99_999_000));
    // 1031 nets 1001, one more than fits.
    let before = ctx;
    assert_eq!(place_bet(&mut ctx, Outcome::Yes, 1031), Err(ErrorCode::BetExceedsLimit));
    assert_eq!(ctx, before);
    // 1030 nets 1000 and lands on the cap exactly.
    assert_eq!(place_bet(&mut ctx, Outcome::Yes, 1030), Ok(deposit(1030)));
    assert_eq!(ctx.position.amount, 100_000_000);
    assert_eq!(ctx.market.total_yes, 100_000_000);
    assert_eq!(ctx.market.fees_accrued, 30);
    // Nothing more fits.
    let before = ctx;
    assert_eq!(place_bet(&mut ctx, Outcome::Yes, 1), Err(ErrorCode::BetExceedsLimit));
    assert_eq!(ctx, before);
}

#[test]
fn cap_applies_to_the_first_bet_too() {
    let mut ctx = bet_ctx(market(0, 0, 0), Position::blank());
    let before = ctx;
    assert_eq!(place_bet(&mut ctx, Outcome::No, 200_000_000), Err(ErrorCode::BetExceedsLimit));
    assert_eq!(ctx, before);
    // 103_092_783 nets exactly 100_000_000.
    assert_eq!(place_bet(&mut ctx, Outcome::No, 103_092_783), Ok(deposit(103_092_783)));
    assert_eq!(ctx.position.amount, 100_000_000);
}

#[test]
fn cap_follows_the_decimals() {
    let mut ctx = bet_ctx(market(0, 0, 0), Position::blank());
    ctx.decimals = 0;
    assert_eq!(place_bet(&mut ctx, Outcome::Yes, 104), Err(ErrorCode::BetExceedsLimit));
    assert_eq!(place_bet(&mut ctx, Outcome::Yes, 103), Ok(deposit(103)));
    assert_eq!(ctx.position.amount, 100);
}

#[test]
fn cap_that_does_not_fit_overflows() {
    let mut ctx = bet_ctx(market(0, 0, 0), Position::blank());
    ctx.decimals = 37;
    let before = ctx;
    assert_eq!(place_bet(&mut ctx, Outcome::Yes, 1000), Err(ErrorCode::Overflow));
    assert_eq!(ctx, before);
    ctx.decimals = 36;
    assert_eq!(place_bet(&mut ctx, Outcome::Yes, 1000), Ok(deposit(1000)));
}

#[test]
fn stake_that_does_not_fit_overflows() {
    let mut ctx = bet_ctx(market(0, 0, 0), position(Outcome::Yes, u64::MAX));
    ctx.decimals = 18;
    let before = ctx;
    assert_eq!(place_bet(&mut ctx, Outcome::Yes, 1), Err(ErrorCode::Overflow));
    assert_eq!(ctx, before);
}

#[test]
fn pool_that_does_not_fit_overflows() {
    let mut ctx = bet_ctx(market(u64::MAX, 0, 0), Position::blank());
    let before = ctx;
    assert_eq!(place_bet(&mut ctx, Outcome::Yes, 1), Err(ErrorCode::Overflow));
    assert_eq!(ctx, before);
    assert_eq!(place_bet(&mut ctx, Outcome::No, 1), Ok(deposit(1)));

    let mut ctx = bet_ctx(market(0, u64::MAX - 969, 0), Position::blank());
    assert_eq!(place_bet(&mut ctx, Outcome::No, 1000), Err(ErrorCode::Overflow));
    ctx.market.total_no = u64::MAX - 970;
    assert_eq!(place_bet(&mut ctx, Outcome::No, 1000), Ok(deposit(1000)));
    assert_eq!(ctx.market.total_no, u64::MAX);
}

#[test]
fn fees_that_do_not_fit_overflow() {
    let mut ctx = bet_ctx(market(0, 0, u64::MAX - 29), Position::blank());
    let before = ctx;
    assert_eq!(place_bet(&mut ctx, Outcome::Yes, 1000), Err(ErrorCode::Overflow));
    assert_eq!(ctx, before);
    ctx.market.fees_accrued = u64::MAX - 30;
    assert_eq!(place_bet(&mut ctx, Outcome::Yes, 1000), Ok(deposit(1000)));
    assert_eq!(ctx.market.fees_accrued, u64::MAX);
}

#[test]
fn bets_are_on_yes_or_no_only() {
    let mut ctx = bet_ctx(market(0, 0, 0), Position::blank());
    let before = ctx;
    assert_eq!(place_bet(&mut ctx, Outcome::Unset, 1000), Err(ErrorCode::InvalidOutcomeArg));
    assert_eq!(place_bet(&mut ctx, Outcome::Void, 1000), Err(ErrorCode::InvalidOutcomeArg));
    assert_eq!(ctx, before);
}

#[test]
fn bet_checks_in_order() {
    let mut resolved = market(0, 0, 0);
    resolved.resolved = true;
    resolved.winning_outcome = Outcome::Void;
    let mut ctx = bet_ctx(resolved, position(Outcome::Yes, 100_000_000));
    ctx.now = 500;
    ctx.bet_mint = key(99);
    // Amount before state.
    assert_eq!(place_bet(&mut ctx, Outcome::Void, 0), Err(ErrorCode::InvalidAmount));
    // Resolved before closed.
    assert_eq!(place_bet(&mut ctx, Outcome::Void, 5), Err(ErrorCode::MarketResolved));
    ctx.market = market(0, 0, 0);
    // Closed before the mint.
    assert_eq!(place_bet(&mut ctx, Outcome::Void, 5), Err(ErrorCode::BettingClosed));
    ctx.now = 50;
    assert_eq!(place_bet(&mut ctx, Outcome::Void, 5), Err(ErrorCode::WrongMint));
    ctx.bet_mint = key(MINT);
    // The side before the cap.
    assert_eq!(place_bet(&mut ctx, Outcome::Void, 5), Err(ErrorCode::CannotSwitchSide));
    // The cap before the outcome.
    ctx.position = position(Outcome::Void, 100_000_000);
    assert_eq!(place_bet(&mut ctx, Outcome::Void, 5), Err(ErrorCode::BetExceedsLimit));
    ctx.position = position(Outcome::Void, 5);
    assert_eq!(place_bet(&mut ctx, Outcome::Void, 5), Err(ErrorCode::InvalidOutcomeArg));
}
