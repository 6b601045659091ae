use yesno_bets::authority::owner_pubkey;
use yesno_bets::{
    claim_winnings, create_market, place_bet, resolve_market, sweep_fees, update_cutoff,
    ClaimWinnings, CreateMarket, ErrorCode, Market, Outcome, PlaceBet, Position, Pubkey,
    ResolveMarket, SweepFees, TransferSigner, UpdateCutoff,
};

fn key(byte: u8) -> Pubkey {
    Pubkey::new_from_array([byte; 32])
}

const MARKET: u8 = 100;
const MINT: u8 = 101;
const VAULT: u8 = 102;
const VAULT_AUTHORITY: u8 = 103;
const FEE_ATA: u8 = 104;
const BUMP: u8 = 251;

/// A market record, the positions of four participants and the balance of
/// the escrow, with every transfer the engine asks for carried out.
struct Books {
    market: Market,
    positions: [Position; 4],
    escrow: u64,
    now: i64,
}

impl Books {
    fn open(cutoff_ts: i64) -> Books {
        let mut ctx = CreateMarket {
            owner: owner_pubkey().unwrap(),
            market: Market::new(key(0), key(0), key(0), key(0), 0),
            bet_mint: key(MINT),
            vault_authority: key(VAULT_AUTHORITY),
            vault: key(VAULT),
        };
        create_market(&mut ctx, cutoff_ts).unwrap();
        Books { market: ctx.market, positions: [Position::blank(); 4], escrow: 0, now: 0 }
    }

    fn bet(&mut self, who: usize, outcome: Outcome, amount: u64) -> Result<(), ErrorCode> {
        let mut ctx = PlaceBet {
            bettor: key(who as u8),
            market_key: key(MARKET),
            market: self.market,
            bet_mint: key(MINT),
            decimals: 6,
            bettor_ata: key(50 + who as u8),
            vault: key(VAULT),
            position: self.positions[who],
            now: self.now,
        };
        let transfer = place_bet(&mut ctx, outcome, amount)?;
        assert_eq!(transfer.to, key(VAULT));
        assert_eq!(transfer.from, key(50 + who as u8));
        assert_eq!(transfer.authority, key(who as u8));
        assert_eq!(transfer.signer, TransferSigner::Participant);
        self.escrow += transfer.amount;
        self.market = ctx.market;
        self.positions[who] = ctx.position;
        Ok(())
    }

    fn resolve(&mut self, outcome: Outcome) -> Result<(), ErrorCode> {
        let mut ctx =
            ResolveMarket { owner: owner_pubkey().unwrap(), market: self.market, now: self.now };
        resolve_market(&mut ctx, outcome)?;
        self.market = ctx.market;
        Ok(())
    }

    fn claim(&mut self, who: usize) -> Result<u64, ErrorCode> {
        let mut ctx = ClaimWinnings {
            bettor: key(who as u8),
            market_key: key(MARKET),
            market: self.market,
            bet_mint: key(MINT),
            bettor_ata: key(50 + who as u8),
            vault_authority: key(VAULT_AUTHORITY),
            vault_authority_bump: BUMP,
            vault: key(VAULT),
            position: self.positions[who],
        };
        let transfer = claim_winnings(&mut ctx)?;
        assert_eq!(transfer.from, key(VAULT));
        assert_eq!(transfer.to, key(50 + who as u8));
        assert_eq!(transfer.authority, key(VAULT_AUTHORITY));
        assert_eq!(
            transfer.signer,
            TransferSigner::VaultAuthority { market: key(MARKET), bump: BUMP }
        );
        assert!(transfer.amount <= self.escrow);
        self.escrow -= transfer.amount;
        self.positions[who] = ctx.position;
        assert_eq!(ctx.market, self.market);
        Ok(transfer.amount)
    }

    fn sweep(&mut self) -> Result<u64, ErrorCode> {
        let mut ctx = SweepFees {
            owner: owner_pubkey().unwrap(),
            market_key: key(MARKET),
            market: self.market,
            vault_authority: key(VAULT_AUTHORITY),
            vault_authority_bump: BUMP,
            vault: key(VAULT),
            owner_fee_ata: key(FEE_ATA),
        };
        let transfer = sweep_fees(&mut ctx)?;
        assert_eq!(transfer.to, key(FEE_ATA));
        assert!(transfer.amount <= self.escrow);
        self.escrow -= transfer.amount;
        self.market = ctx.market;
        Ok(transfer.amount)
    }
}

#[test]
fn a_market_from_creation_to_the_last_claim() {
    let mut books = Books::open(1_000);
    assert_eq!(books.market.creator, owner_pubkey().unwrap());

    // Bets: 0 and 1 on Yes, 2 on No, 3 stays out.
    books.now = 10;
    assert_eq!(books.bet(0, Outcome::Yes, 1_000), Ok(()));
    assert_eq!(books.bet(1, Outcome::Yes, 2_000), Ok(()));
    assert_eq!(books.bet(2, Outcome::No, 5_000), Ok(()));
    assert_eq!(books.bet(0, Outcome::Yes, 500), Ok(()));
    assert_eq!(books.bet(0, Outcome::No, 500), Err(ErrorCode::CannotSwitchSide));
    assert_eq!(books.market.total_yes, 970 + 1_940 + 485);
    assert_eq!(books.market.total_no, 4_850);
    assert_eq!(books.market.fees_accrued, 30 + 60 + 150 + 15);
    assert_eq!(books.escrow, 8_500);
    assert_eq!(books.positions[0].amount, 1_455);
    assert_eq!(books.positions[1].amount, 1_940);
    assert_eq!(books.positions[2].amount, 4_850);

    // Nothing can be claimed or resolved yet.
    assert_eq!(books.claim(0), Err(ErrorCode::NotResolved));
    assert_eq!(books.resolve(Outcome::Yes), Err(ErrorCode::TooEarly));

    // The fees so far are swept while the market is open.
    assert_eq!(books.sweep(), Ok(255));
    assert_eq!(books.sweep(), Err(ErrorCode::NoFees));
    assert_eq!(books.escrow, 8_245);

    // The cutoff passes.
    books.now = 1_000;
    assert_eq!(books.bet(3, Outcome::No, 1_000), Err(ErrorCode::BettingClosed));
    assert_eq!(books.resolve(Outcome::Void), Err(ErrorCode::InvalidOutcomeArg));
    assert_eq!(books.resolve(Outcome::Yes), Ok(()));
    assert_eq!(books.resolve(Outcome::No), Err(ErrorCode::AlreadyResolved));
    assert_eq!(books.bet(3, Outcome::No, 1_000), Err(ErrorCode::MarketResolved));

    // Winners take their shares of 8245; the loser and the bystander nothing.
    assert_eq!(books.claim(2), Err(ErrorCode::NoPayout));
    assert_eq!(books.claim(3), Err(ErrorCode::Unauthorized));
    assert_eq!(books.claim(0), Ok(8_245 * 1_455 / 3_395));
    assert_eq!(books.claim(1), Ok(8_245 * 1_940 / 3_395));
    assert_eq!(books.claim(0), Err(ErrorCode::AlreadyClaimed));
    assert_eq!(books.claim(1), Err(ErrorCode::AlreadyClaimed));

    // What rounding left behind stays in escrow.
    assert_eq!(books.escrow, 8_245 - 3_533 - 4_711);
    assert_eq!(books.sweep(), Err(ErrorCode::NoFees));
}

#[test]
fn a_one_sided_market_refunds_everyone() {
    let mut books = Books::open(1_000);
    books.now = 10;
    assert_eq!(books.bet(0, Outcome::Yes, 1_000), Ok(()));
    assert_eq!(books.bet(1, Outcome::Yes, 777), Ok(()));
    books.now = 2_000;
    assert_eq!(books.resolve(Outcome::Yes), Ok(()));
    assert_eq!(books.market.winning_outcome, Outcome::Void);

    assert_eq!(books.claim(0), Ok(970));
    assert_eq!(books.claim(1), Ok(754));
    assert_eq!(books.claim(1), Err(ErrorCode::AlreadyClaimed));
    // The fees are not refunded; they are all that is left.
    assert_eq!(books.escrow, 30 + 23);
    assert_eq!(books.sweep(), Ok(53));
    assert_eq!(books.escrow, 0);
}

#[test]
fn the_cutoff_can_be_moved_while_the_market_is_open() {
    let mut books = Books::open(1_000);
    let mut ctx = UpdateCutoff { owner: owner_pubkey().unwrap(), market: books.market, now: 999 };
    assert_eq!(update_cutoff(&mut ctx, 5_000), Ok(()));
    books.market = ctx.market;
    books.now = 4_999;
    assert_eq!(books.bet(0, Outcome::No, 100), Ok(()));
    assert_eq!(books.resolve(Outcome::No), Err(ErrorCode::TooEarly));
    books.now = 5_000;
    assert_eq!(books.bet(0, Outcome::No, 100), Err(ErrorCode::BettingClosed));
    assert_eq!(books.resolve(Outcome::No), Ok(()));
    assert_eq!(books.market.winning_outcome, Outcome::Void);
}
