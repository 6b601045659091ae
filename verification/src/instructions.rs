//! The six operations of the engine.
//!
//! Each operation is handed a context: the caller that the environment has
//! authenticated, the records it has located, and the time it reports. An
//! operation either succeeds, updating the records in its context and, where
//! value moves, returning the one transfer to carry out; or it is refused
//! with an `ErrorCode` and leaves its context exactly as it was.

use crate::authority::{is_owner, require_owner, signer_seeds, vault_signer_seeds};
use crate::error::ErrorCode;
use crate::math::{bet_cap, cap_refusal, check_cap, fee_of, net_of, split_fee};
use crate::outcome::Outcome;
use crate::pubkey::{seeds_view, Pubkey};
use crate::state::{Market, Position};
use vstd::prelude::*;

verus! {

/// Who signs for a transfer.
#[derive(Clone, Copy, Debug, PartialEq, Eq)]
pub enum TransferSigner {
    /// The participant, for a deposit out of their own holding account.
    Participant,
    /// The escrow authority derived from `market`, with the bump seed that
    /// completes its derivation.
    VaultAuthority { market: Pubkey, bump: u8 },
}

/// An instruction to the asset-transfer service: move `amount` base units
/// from one holding account to another.
#[derive(Clone, Copy, Debug, PartialEq, Eq)]
pub struct Transfer {
    pub from: Pubkey,
    pub to: Pubkey,
    /// The identity that controls `from`.
    pub authority: Pubkey,
    pub amount: u64,
    pub signer: TransferSigner,
}

impl Transfer {
    /// The seeds the escrow authority signs with, or `None` where the
    /// participant signs in person.
    pub fn signer_seeds(&self) -> (seeds: Option<Vec<Vec<u8>>>)
        ensures
            match self.signer {
                TransferSigner::Participant => seeds is None,
                TransferSigner::VaultAuthority { market, bump } => {
                    &&& seeds matches Some(s)
                    &&& seeds_view(s@) == signer_seeds(market, bump)
                },
            },
    {
        match self.signer {
            TransferSigner::Participant => None,
            TransferSigner::VaultAuthority { market, bump } => Some(
                vault_signer_seeds(&market, bump),
            ),
        }
    }
}

/// Context of `create_market`.
#[derive(Clone, Copy, Debug, PartialEq, Eq)]
pub struct CreateMarket {
    /// The caller.
    pub owner: Pubkey,
    /// The record to initialise.
    pub market: Market,
    /// The asset the market is to accept.
    pub bet_mint: Pubkey,
    /// The derived identity that is to control the escrow.
    pub vault_authority: Pubkey,
    /// The escrow holding account.
    pub vault: Pubkey,
}

/// Context of `update_cutoff`.
#[derive(Clone, Copy, Debug, PartialEq, Eq)]
pub struct UpdateCutoff {
    /// The caller.
    pub owner: Pubkey,
    pub market: Market,
    /// The current time.
    pub now: i64,
}

/// Context of `place_bet`.
#[derive(Clone, Copy, Debug, PartialEq, Eq)]
pub struct PlaceBet {
    /// The caller.
    pub bettor: Pubkey,
    /// The address of `market`.
    pub market_key: Pubkey,
    pub market: Market,
    /// The asset presented.
    pub bet_mint: Pubkey,
    /// Decimal places of the asset presented.
    pub decimals: u8,
    /// The caller's holding account, which the deposit leaves.
    pub bettor_ata: Pubkey,
    /// The escrow holding account, which the deposit enters.
    pub vault: Pubkey,
    /// The caller's position in `market`; blank before the first bet.
    pub position: Position,
    /// The current time.
    pub now: i64,
}

/// Context of `resolve_market`.
#[derive(Clone, Copy, Debug, PartialEq, Eq)]
pub struct ResolveMarket {
    /// The caller.
    pub owner: Pubkey,
    pub market: Market,
    /// The current time.
    pub now: i64,
}

/// Context of `claim_winnings`.
#[derive(Clone, Copy, Debug, PartialEq, Eq)]
pub struct ClaimWinnings {
    /// The caller.
    pub bettor: Pubkey,
    /// The address of `market`.
    pub market_key: Pubkey,
    pub market: Market,
    /// The asset presented.
    pub bet_mint: Pubkey,
    /// The caller's holding account, which the payout enters.
    pub bettor_ata: Pubkey,
    /// The derived identity that controls the escrow.
    pub vault_authority: Pubkey,
    /// The bump seed of `vault_authority`.
    pub vault_authority_bump: u8,
    /// The escrow holding account, which the payout leaves.
    pub vault: Pubkey,
    pub position: Position,
}

/// Context of `sweep_fees`.
#[derive(Clone, Copy, Debug, PartialEq, Eq)]
pub struct SweepFees {
    /// The caller.
    pub owner: Pubkey,
    /// The address of `market`.
    pub market_key: Pubkey,
    pub market: Market,
    /// The derived identity that controls the escrow.
    pub vault_authority: Pubkey,
    /// The bump seed of `vault_authority`.
    pub vault_authority_bump: u8,
    /// The escrow holding account, which the fees leave.
    pub vault: Pubkey,
    /// The authority's holding account, which the fees enter.
    pub owner_fee_ata: Pubkey,
}

/// The refusal of a privileged operation: whoever is not the system
/// authority is refused as unauthorized before anything else is looked at;
/// the authority is refused for the reason `refusal`, if there is one.
pub open spec fn guarded(authorized: bool, refusal: Option<ErrorCode>) -> Option<ErrorCode> {
    if !authorized {
        Some(ErrorCode::Unauthorized)
    } else {
        refusal
    }
}

/// Creates a market: empty pools, no fees, unresolved. Only the system
/// authority may. The cutoff is not held against the current time.
pub fn create_market(ctx: &mut CreateMarket, cutoff_ts: i64) -> (r: Result<(), ErrorCode>)
    ensures
        match r {
            Ok(_) => {
                &&& guarded(is_owner(old(ctx).owner), None) is None
                &&& *final(ctx) == (CreateMarket {
                    market: Market::created(
                        old(ctx).owner,
                        old(ctx).bet_mint,
                        old(ctx).vault,
                        old(ctx).vault_authority,
                        cutoff_ts,
                    ),
                    ..*old(ctx)
                })
                &&& final(ctx).market.wf()
            },
            Err(e) => {
                &&& guarded(is_owner(old(ctx).owner), None) == Some(e)
                &&& *final(ctx) == *old(ctx)
            },
        },
{
    match require_owner(&ctx.owner) {
        Ok(_) => {},
        Err(e) => {
            return Err(e);
        },
    }
    ctx.market = Market::new(ctx.owner, ctx.bet_mint, ctx.vault, ctx.vault_authority, cutoff_ts);
    Ok(())
}

/// Moves the cutoff of a market. Only the system authority may, only while
/// the market is unresolved and its present cutoff has not passed, and only
/// to a time in the future.
pub fn update_cutoff(ctx: &mut UpdateCutoff, new_cutoff_ts: i64) -> (r: Result<(), ErrorCode>)
    ensures
        match r {
            Ok(_) => {
                &&& guarded(
                    is_owner(old(ctx).owner),
                    old(ctx).market.cutoff_refusal(old(ctx).now, new_cutoff_ts),
                ) is None
                &&& *final(ctx) == (UpdateCutoff {
                    market: Market { cutoff_ts: new_cutoff_ts, ..old(ctx).market },
                    ..*old(ctx)
                })
            },
            Err(e) => {
                &&& guarded(
                    is_owner(old(ctx).owner),
                    old(ctx).market.cutoff_refusal(old(ctx).now, new_cutoff_ts),
                ) == Some(e)
                &&& *final(ctx) == *old(ctx)
            },
        },
        final(ctx).market.evolves_from(old(ctx).market),
        old(ctx).market.wf() ==> final(ctx).market.wf(),
{
    match require_owner(&ctx.owner) {
        Ok(_) => {},
        Err(e) => {
            return Err(e);
        },
    }
    let now: i64 = ctx.now;
    ctx.market.update_cutoff(now, new_cutoff_ts)
}

/// Resolves a market. Only the system authority may, once, and not before
/// the cutoff.
///
/// Where a pool is empty the market is void, whatever outcome is proposed.
/// Otherwise the proposed outcome must be `Yes` or `No`.
pub fn resolve_market(ctx: &mut ResolveMarket, winning_outcome: Outcome) -> (r: Result<
    (),
    ErrorCode,
>)
    ensures
        match r {
            Ok(_) => {
                &&& guarded(
                    is_owner(old(ctx).owner),
                    old(ctx).market.resolve_refusal(old(ctx).now, winning_outcome),
                ) is None
                &&& *final(ctx) == (ResolveMarket {
                    market: Market {
                        resolved: true,
                        winning_outcome: old(ctx).market.settled_outcome(winning_outcome),
                        ..old(ctx).market
                    },
                    ..*old(ctx)
                })
            },
            Err(e) => {
                &&& guarded(
                    is_owner(old(ctx).owner),
                    old(ctx).market.resolve_refusal(old(ctx).now, winning_outcome),
                ) == Some(e)
                &&& *final(ctx) == *old(ctx)
            },
        },
        old(ctx).now < old(ctx).market.cutoff_ts ==> {
            &&& r is Err
            &&& final(ctx).market.resolved == old(ctx).market.resolved
        },
        old(ctx).now < old(ctx).market.cutoff_ts && is_owner(old(ctx).owner)
            && !old(ctx).market.resolved ==> r == Err::<(), ErrorCode>(ErrorCode::TooEarly),
        r is Ok && old(ctx).market.one_sided() ==> final(ctx).market.winning_outcome
            == Outcome::Void,
        final(ctx).market.evolves_from(old(ctx).market),
        old(ctx).market.wf() ==> final(ctx).market.wf(),
{
    match require_owner(&ctx.owner) {
        Ok(_) => {},
        Err(e) => {
            return Err(e);
        },
    }
    let now: i64 = ctx.now;
    ctx.market.resolve(now, winning_outcome)
}

/// Sweeps the accrued fees of a market to the authority's holding account.
/// Only the system authority may, and only where fees have accrued.
///
/// On success the whole accrued balance is to be transferred out of escrow,
/// signed for by the escrow authority, and the market's balance of accrued
/// fees is zero.
pub fn sweep_fees(ctx: &mut SweepFees) -> (r: Result<Transfer, ErrorCode>)
    ensures
        match r {
            Ok(transfer) => {
                &&& guarded(is_owner(old(ctx).owner), old(ctx).market.fees_refusal()) is None
                &&& transfer == (Transfer {
                    from: old(ctx).vault,
                    to: old(ctx).owner_fee_ata,
                    authority: old(ctx).vault_authority,
                    amount: old(ctx).market.fees_accrued,
                    signer: TransferSigner::VaultAuthority {
                        market: old(ctx).market_key,
                        bump: old(ctx).vault_authority_bump,
                    },
                })
                &&& *final(ctx) == (SweepFees {
                    market: Market { fees_accrued: 0, ..old(ctx).market },
                    ..*old(ctx)
                })
            },
            Err(e) => {
                &&& guarded(is_owner(old(ctx).owner), old(ctx).market.fees_refusal()) == Some(e)
                &&& *final(ctx) == *old(ctx)
            },
        },
        final(ctx).market.evolves_from(old(ctx).market),
        old(ctx).market.wf() ==> final(ctx).market.wf(),
{
    match require_owner(&ctx.owner) {
        Ok(_) => {},
        Err(e) => {
            return Err(e);
        },
    }
    let amount: u64 = match ctx.market.collect_fees() {
        Ok(amount) => amount,
        Err(e) => {
            return Err(e);
        },
    };
    Ok(
        Transfer {
            from: ctx.vault,
            to: ctx.owner_fee_ata,
            authority: ctx.vault_authority,
            amount,
            signer: TransferSigner::VaultAuthority {
                market: ctx.market_key,
                bump: ctx.vault_authority_bump,
            },
        },
    )
}

/// Why a bet of `amount` on `outcome` is refused in this context, if it is.
/// The checks are made in this order and the first that fails decides.
pub open spec fn bet_refusal(ctx: PlaceBet, outcome: Outcome, amount: u64) -> Option<ErrorCode> {
    let fee = fee_of(amount as nat);
    let net = net_of(amount as nat);
    let pool = if outcome == Outcome::Yes {
        ctx.market.total_yes
    } else {
        ctx.market.total_no
    };
    if amount == 0 {
        Some(ErrorCode::InvalidAmount)
    } else if ctx.market.resolved {
        Some(ErrorCode::MarketResolved)
    } else if ctx.now >= ctx.market.cutoff_ts {
        Some(ErrorCode::BettingClosed)
    } else if ctx.market.bet_mint != ctx.bet_mint {
        Some(ErrorCode::WrongMint)
    } else if !ctx.position.is_blank() && ctx.position.outcome != outcome {
        Some(ErrorCode::CannotSwitchSide)
    } else if cap_refusal(ctx.position.amount as nat, net, ctx.decimals as nat) is Some {
        cap_refusal(ctx.position.amount as nat, net, ctx.decimals as nat)
    } else if !outcome.is_side() {
        Some(ErrorCode::InvalidOutcomeArg)
    } else if pool + net > u64::MAX {
        Some(ErrorCode::Overflow)
    } else if ctx.market.fees_accrued + fee > u64::MAX {
        Some(ErrorCode::Overflow)
    } else {
        None
    }
}

/// The position after a bet of `amount` on `outcome` by `bettor` in the
/// market at `market_key`. A blank position is taken over by the bettor and
/// committed to the outcome; the stake grows by the net amount.
pub open spec fn position_after_bet(
    position: Position,
    bettor: Pubkey,
    market_key: Pubkey,
    outcome: Outcome,
    amount: u64,
) -> Position {
    let stake = (position.amount + net_of(amount as nat)) as u64;
    if position.is_blank() {
        Position { owner: bettor, market: market_key, outcome, claimed: false, amount: stake }
    } else {
        Position { amount: stake, ..position }
    }
}

/// The market after a bet of `amount` on `outcome`: the pool of that side
/// grows by the net amount, the accrued fees by the fee.
pub open spec fn market_after_bet(market: Market, outcome: Outcome, amount: u64) -> Market {
    let fee = fee_of(amount as nat);
    let net = net_of(amount as nat);
    Market {
        total_yes: if outcome == Outcome::Yes {
            (market.total_yes + net) as u64
        } else {
            market.total_yes
        },
        total_no: if outcome == Outcome::Yes {
            market.total_no
        } else {
            (market.total_no + net) as u64
        },
        fees_accrued: (market.fees_accrued + fee) as u64,
        ..market
    }
}

/// Places a bet of `amount` base units on `outcome`.
///
/// The market must be unresolved and before its cutoff, the amount not
/// zero, the asset the market's own, and the outcome `Yes` or `No`: the one
/// the position already holds, if it holds a stake. A fee of 3%, rounded
/// down, is kept back; the rest is the net amount, which is added to the
/// position's stake and to the pool of the outcome. The stake of one
/// position never passes one hundred whole tokens.
///
/// On success the gross amount, fee included, is to be transferred from the
/// bettor's holding account into escrow, signed for by the bettor.
pub fn place_bet(ctx: &mut PlaceBet, outcome: Outcome, amount: u64) -> (r: Result<
    Transfer,
    ErrorCode,
>)
    ensures
        match r {
            Ok(transfer) => {
                &&& bet_refusal(*old(ctx), outcome, amount) is None
                &&& transfer == (Transfer {
                    from: old(ctx).bettor_ata,
                    to: old(ctx).vault,
                    authority: old(ctx).bettor,
                    amount,
                    signer: TransferSigner::Participant,
                })
                &&& *final(ctx) == (PlaceBet {
                    market: market_after_bet(old(ctx).market, outcome, amount),
                    position: position_after_bet(
                        old(ctx).position,
                        old(ctx).bettor,
                        old(ctx).market_key,
                        outcome,
                        amount,
                    ),
                    ..*old(ctx)
                })
                &&& final(ctx).position.amount == old(ctx).position.amount + net_of(amount as nat)
                &&& final(ctx).position.amount <= bet_cap(old(ctx).decimals as nat)
                &&& final(ctx).market.total_yes + final(ctx).market.total_no
                    + final(ctx).market.fees_accrued == old(ctx).market.total_yes
                    + old(ctx).market.total_no + old(ctx).market.fees_accrued + amount
            },
            Err(e) => {
                &&& bet_refusal(*old(ctx), outcome, amount) == Some(e)
                &&& *final(ctx) == *old(ctx)
            },
        },
        final(ctx).market.evolves_from(old(ctx).market),
        final(ctx).position.evolves_from(old(ctx).position),
        old(ctx).market.wf() ==> final(ctx).market.wf(),
{
    if amount == 0 {
        return Err(ErrorCode::InvalidAmount);
    }
    if ctx.market.resolved {
        return Err(ErrorCode::MarketResolved);
    }
    if ctx.now >= ctx.market.cutoff_ts {
        return Err(ErrorCode::BettingClosed);
    }
    if ctx.market.bet_mint != ctx.bet_mint {
        return Err(ErrorCode::WrongMint);
    }
    let (fee, net): (u64, u64) = split_fee(amount);

    let mut position = ctx.position;
    if position.amount == 0 {
        position.owner = ctx.bettor;
        position.market = ctx.market_key;
        position.outcome = outcome;
        position.claimed = false;
    } else if position.outcome != outcome {
        return Err(ErrorCode::CannotSwitchSide);
    }
    position.amount = match check_cap(position.amount, net, ctx.decimals) {
        Ok(total) => total,
        Err(e) => {
            return Err(e);
        },
    };

    let mut market = ctx.market;
    match outcome {
        Outcome::Yes => {
            market.total_yes = match market.total_yes.checked_add(net) {
                Some(pool) => pool,
                None => {
                    return Err(ErrorCode::Overflow);
                },
            };
        },
        Outcome::No => {
            market.total_no = match market.total_no.checked_add(net) {
                Some(pool) => pool,
                None => {
                    return Err(ErrorCode::Overflow);
                },
            };
        },
        Outcome::Unset | Outcome::Void => {
            return Err(ErrorCode::InvalidOutcomeArg);
        },
    }
    market.fees_accrued = match market.fees_accrued.checked_add(fee) {
        Some(fees) => fees,
        None => {
            return Err(ErrorCode::Overflow);
        },
    };

    ctx.position = position;
    ctx.market = market;
    Ok(
        Transfer {
            from: ctx.bettor_ata,
            to: ctx.vault,
            authority: ctx.bettor,
            amount,
            signer: TransferSigner::Participant,
        },
    )
}

/// Why a claim is refused in this context, if it is. The checks are made in
/// this order and the first that fails decides.
pub open spec fn claim_refusal(ctx: ClaimWinnings) -> Option<ErrorCode> {
    if ctx.position.owner != ctx.bettor {
        Some(ErrorCode::Unauthorized)
    } else if !ctx.market.resolved {
        Some(ErrorCode::NotResolved)
    } else if ctx.position.claimed {
        Some(ErrorCode::AlreadyClaimed)
    } else if ctx.position.market != ctx.market_key {
        Some(ErrorCode::WrongMarket)
    } else if ctx.bet_mint != ctx.market.bet_mint {
        Some(ErrorCode::WrongMint)
    } else {
        ctx.market.payout_error(ctx.position.outcome, ctx.position.amount)
    }
}

/// Claims what a resolved market owes a position: the refund of its stake
/// where the market is void, else the winner's share of both pools.
///
/// The position must be the caller's own and belong to the market, and must
/// not have been claimed before. A position on the losing side is refused,
/// not paid zero.
///
/// On success the payout is to be transferred out of escrow into the
/// caller's holding account, signed for by the escrow authority, and the
/// position is marked as claimed: the record is spent and is to be removed.
pub fn claim_winnings(ctx: &mut ClaimWinnings) -> (r: Result<Transfer, ErrorCode>)
    ensures
        match r {
            Ok(transfer) => {
                &&& claim_refusal(*old(ctx)) is None
                &&& transfer == (Transfer {
                    from: old(ctx).vault,
                    to: old(ctx).bettor_ata,
                    authority: old(ctx).vault_authority,
                    amount: old(ctx).market.payout_due(old(ctx).position.amount) as u64,
                    signer: TransferSigner::VaultAuthority {
                        market: old(ctx).market_key,
                        bump: old(ctx).vault_authority_bump,
                    },
                })
                &&& transfer.amount == old(ctx).market.payout_due(old(ctx).position.amount)
                &&& *final(ctx) == (ClaimWinnings {
                    position: Position { claimed: true, ..old(ctx).position },
                    ..*old(ctx)
                })
            },
            Err(e) => {
                &&& claim_refusal(*old(ctx)) == Some(e)
                &&& *final(ctx) == *old(ctx)
            },
        },
        final(ctx).market == old(ctx).market,
        final(ctx).position.evolves_from(old(ctx).position),
{
    if ctx.position.owner != ctx.bettor {
        return Err(ErrorCode::Unauthorized);
    }
    if !ctx.market.resolved {
        return Err(ErrorCode::NotResolved);
    }
    if ctx.position.claimed {
        return Err(ErrorCode::AlreadyClaimed);
    }
    if ctx.position.market != ctx.market_key {
        return Err(ErrorCode::WrongMarket);
    }
    if ctx.bet_mint != ctx.market.bet_mint {
        return Err(ErrorCode::WrongMint);
    }
    let amount: u64 = match ctx.market.payout_for(ctx.position.outcome, ctx.position.amount) {
        Ok(amount) => amount,
        Err(e) => {
            return Err(e);
        },
    };
    ctx.position.claimed = true;
    Ok(
        Transfer {
            from: ctx.vault,
            to: ctx.bettor_ata,
            authority: ctx.vault_authority,
            amount,
            signer: TransferSigner::VaultAuthority {
                market: ctx.market_key,
                bump: ctx.vault_authority_bump,
            },
        },
    )
}

} // verus!
