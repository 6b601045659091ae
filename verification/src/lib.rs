//! A two-outcome pari-mutuel betting market as a deterministic
//! state-transition engine.
//!
//! Participants stake on `Yes` or `No` before a cutoff, the system authority
//! resolves the market after it, and participants then claim their share of
//! both pools, or a refund where the market is void. The engine decides and
//! keeps the books; it moves no value itself. Each operation is handed the
//! authenticated caller, the records and the time, and answers with the new
//! records and the one transfer to carry out.

pub mod authority;
pub mod error;
pub mod instructions;
pub mod laws;
pub mod ledger;
pub mod math;
pub mod outcome;
pub mod pubkey;
pub mod state;
pub mod sums;

pub use authority::{OWNER, POSITION_SEED, VAULT_AUTH_SEED};
pub use error::{ErrorClass, ErrorCode};
pub use instructions::{
    claim_winnings, create_market, place_bet, resolve_market, sweep_fees, update_cutoff,
    ClaimWinnings, CreateMarket, PlaceBet, ResolveMarket, SweepFees, Transfer, TransferSigner,
    UpdateCutoff,
};
pub use math::{BPS_DENOM, FEE_BPS};
pub use outcome::Outcome;
pub use pubkey::Pubkey;
pub use state::{Market, Phase, Position};
