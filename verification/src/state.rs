//! The two persistent records, `Market` and `Position`, and the transitions
//! that change a market on its own.

use crate::error::ErrorCode;
use crate::math::{payout, payout_of, payout_refusal};
use crate::outcome::Outcome;
use crate::pubkey::Pubkey;
use vstd::prelude::*;

verus! {

/// One betting event with its escrow and its two pools.
#[derive(Clone, Copy, Debug, PartialEq, Eq)]
pub struct Market {
    /// Who created the market. Informational; grants nothing.
    pub creator: Pubkey,
    /// The asset the market accepts.
    pub bet_mint: Pubkey,
    /// The escrow holding account.
    pub vault: Pubkey,
    /// The derived identity that controls the escrow.
    pub vault_authority: Pubkey,
    /// Bets are accepted strictly before this time; resolution from it on.
    pub cutoff_ts: i64,
    pub resolved: bool,
    /// `Unset` until resolved, then fixed.
    pub winning_outcome: Outcome,
    /// Net stake on `Yes`.
    pub total_yes: u64,
    /// Net stake on `No`.
    pub total_no: u64,
    /// Fees taken on deposits and not yet swept.
    pub fees_accrued: u64,
}

/// One participant's cumulative stake in one market.
#[derive(Clone, Copy, Debug, PartialEq, Eq)]
pub struct Position {
    pub owner: Pubkey,
    pub market: Pubkey,
    /// The side taken with the first bet.
    pub outcome: Outcome,
    pub claimed: bool,
    /// Net stake, fees excluded.
    pub amount: u64,
}

/// Where a market stands at a given time.
#[derive(Clone, Copy, Debug, PartialEq, Eq, Structural)]
pub enum Phase {
    /// Before the cutoff and unresolved: bets are accepted.
    Open,
    /// The cutoff has passed, and the market awaits its resolution.
    Closed,
    /// Resolved with the given outcome. Nothing leads out of this phase.
    Resolved(Outcome),
}

impl Market {
    /// Where the market stands at time `now`.
    pub open spec fn phase_at(self, now: i64) -> Phase {
        if self.resolved {
            Phase::Resolved(self.winning_outcome)
        } else if now < self.cutoff_ts {
            Phase::Open
        } else {
            Phase::Closed
        }
    }

    /// Where the market stands at time `now`.
    pub fn phase(&self, now: i64) -> (phase: Phase)
        ensures
            phase == self.phase_at(now),
    {
        if self.resolved {
            Phase::Resolved(self.winning_outcome)
        } else if now < self.cutoff_ts {
            Phase::Open
        } else {
            Phase::Closed
        }
    }

    /// A market is unresolved with no outcome, or resolved with one.
    pub open spec fn wf(self) -> bool {
        self.resolved <==> self.winning_outcome != Outcome::Unset
    }

    /// Whether one of the pools is empty, so that no payout ratio exists.
    pub open spec fn one_sided(self) -> bool {
        self.total_yes == 0 || self.total_no == 0
    }

    /// Both pools together.
    pub open spec fn total_pool(self) -> nat {
        (self.total_yes + self.total_no) as nat
    }

    /// The pool of the side that won. The pool of `No` stands for every
    /// outcome but `Yes`.
    pub open spec fn winning_pool(self) -> nat {
        if self.winning_outcome == Outcome::Yes {
            self.total_yes as nat
        } else {
            self.total_no as nat
        }
    }

    /// Whether `self` can be a later state of the market `prev`: what
    /// identifies the market is kept, pools never shrink, and a resolved
    /// market keeps its outcome, its pools and its cutoff.
    pub open spec fn evolves_from(self, prev: Market) -> bool {
        &&& self.creator == prev.creator
        &&& self.bet_mint == prev.bet_mint
        &&& self.vault == prev.vault
        &&& self.vault_authority == prev.vault_authority
        &&& self.total_yes >= prev.total_yes
        &&& self.total_no >= prev.total_no
        &&& prev.resolved ==> {
            &&& self.resolved
            &&& self.winning_outcome == prev.winning_outcome
            &&& self.total_yes == prev.total_yes
            &&& self.total_no == prev.total_no
            &&& self.cutoff_ts == prev.cutoff_ts
        }
    }

    /// The state of a market right after creation.
    pub open spec fn created(
        creator: Pubkey,
        bet_mint: Pubkey,
        vault: Pubkey,
        vault_authority: Pubkey,
        cutoff_ts: i64,
    ) -> Market {
        Market {
            creator,
            bet_mint,
            vault,
            vault_authority,
            cutoff_ts,
            resolved: false,
            winning_outcome: Outcome::Unset,
            total_yes: 0,
            total_no: 0,
            fees_accrued: 0,
        }
    }

    /// A fresh market: open, with empty pools and no fees. The cutoff is
    /// taken as given, in the past or not.
    pub fn new(
        creator: Pubkey,
        bet_mint: Pubkey,
        vault: Pubkey,
        vault_authority: Pubkey,
        cutoff_ts: i64,
    ) -> (market: Market)
        ensures
            market == Market::created(creator, bet_mint, vault, vault_authority, cutoff_ts),
            market.wf(),
    {
        Market {
            creator,
            bet_mint,
            vault,
            vault_authority,
            cutoff_ts,
            resolved: false,
            winning_outcome: Outcome::Unset,
            total_yes: 0,
            total_no: 0,
            fees_accrued: 0,
        }
    }

    /// Why the cutoff cannot be moved to `new_cutoff_ts` at time `now`, if
    /// it cannot.
    pub open spec fn cutoff_refusal(self, now: i64, new_cutoff_ts: i64) -> Option<ErrorCode> {
        if self.resolved {
            Some(ErrorCode::AlreadyResolved)
        } else if now >= self.cutoff_ts {
            Some(ErrorCode::BettingClosed)
        } else if new_cutoff_ts <= now {
            Some(ErrorCode::InvalidCutoff)
        } else {
            None
        }
    }

    /// Moves the cutoff of a market that is still open to a time in the
    /// future.
    pub fn update_cutoff(&mut self, now: i64, new_cutoff_ts: i64) -> (r: Result<(), ErrorCode>)
        ensures
            match r {
                Ok(_) => {
                    &&& old(self).cutoff_refusal(now, new_cutoff_ts) is None
                    &&& *final(self) == (Market { cutoff_ts: new_cutoff_ts, ..*old(self) })
                },
                Err(e) => {
                    &&& old(self).cutoff_refusal(now, new_cutoff_ts) == Some(e)
                    &&& *final(self) == *old(self)
                },
            },
            final(self).evolves_from(*old(self)),
            old(self).wf() ==> final(self).wf(),
    {
        if self.resolved {
            return Err(ErrorCode::AlreadyResolved);
        }
        if now >= self.cutoff_ts {
            return Err(ErrorCode::BettingClosed);
        }
        if new_cutoff_ts <= now {
            return Err(ErrorCode::InvalidCutoff);
        }
        self.cutoff_ts = new_cutoff_ts;
        Ok(())
    }

    /// Why the market cannot be resolved at time `now` with `proposed`, if
    /// it cannot.
    pub open spec fn resolve_refusal(self, now: i64, proposed: Outcome) -> Option<ErrorCode> {
        if self.resolved {
            Some(ErrorCode::AlreadyResolved)
        } else if now < self.cutoff_ts {
            Some(ErrorCode::TooEarly)
        } else if !self.one_sided() && !proposed.is_side() {
            Some(ErrorCode::InvalidOutcomeArg)
        } else {
            None
        }
    }

    /// The outcome a resolution with `proposed` settles on: `Void` where a
    /// pool is empty, whatever was proposed.
    pub open spec fn settled_outcome(self, proposed: Outcome) -> Outcome {
        if self.one_sided() {
            Outcome::Void
        } else {
            proposed
        }
    }

    /// Resolves the market once its cutoff has passed.
    ///
    /// With an empty pool the outcome is `Void` whatever was proposed;
    /// otherwise the proposal must be `Yes` or `No`.
    pub fn resolve(&mut self, now: i64, proposed: Outcome) -> (r: Result<(), ErrorCode>)
        ensures
            match r {
                Ok(_) => {
                    &&& old(self).resolve_refusal(now, proposed) is None
                    &&& *final(self) == (Market {
                        resolved: true,
                        winning_outcome: old(self).settled_outcome(proposed),
                        ..*old(self)
                    })
                    &&& final(self).wf()
                },
                Err(e) => {
                    &&& old(self).resolve_refusal(now, proposed) == Some(e)
                    &&& *final(self) == *old(self)
                },
            },
            now < old(self).cutoff_ts ==> r is Err && final(self).resolved == old(self).resolved,
            r is Ok && old(self).one_sided() ==> final(self).winning_outcome == Outcome::Void,
            final(self).evolves_from(*old(self)),
            old(self).wf() ==> final(self).wf(),
    {
        if self.resolved {
            return Err(ErrorCode::AlreadyResolved);
        }
        if now < self.cutoff_ts {
            return Err(ErrorCode::TooEarly);
        }
        let auto_void: bool = self.total_yes == 0 || self.total_no == 0;
        let outcome: Outcome = if auto_void {
            Outcome::Void
        } else if proposed.is_yes_or_no() {
            proposed
        } else {
            return Err(ErrorCode::InvalidOutcomeArg);
        };
        self.resolved = true;
        self.winning_outcome = outcome;
        Ok(())
    }

    /// Why the accrued fees cannot be collected, if they cannot: there are
    /// none.
    pub open spec fn fees_refusal(self) -> Option<ErrorCode> {
        if self.fees_accrued == 0 {
            Some(ErrorCode::NoFees)
        } else {
            None
        }
    }

    /// Empties the accrued fees and returns what was there. Refused with
    /// `NoFees` where nothing has accrued.
    pub fn collect_fees(&mut self) -> (r: Result<u64, ErrorCode>)
        ensures
            match r {
                Ok(amount) => {
                    &&& old(self).fees_refusal() is None
                    &&& amount == old(self).fees_accrued
                    &&& *final(self) == (Market { fees_accrued: 0, ..*old(self) })
                },
                Err(e) => {
                    &&& old(self).fees_refusal() == Some(e)
                    &&& *final(self) == *old(self)
                },
            },
            final(self).evolves_from(*old(self)),
            old(self).wf() ==> final(self).wf(),
    {
        let amount: u64 = self.fees_accrued;
        if amount == 0 {
            return Err(ErrorCode::NoFees);
        }
        self.fees_accrued = 0;
        Ok(amount)
    }

    /// Why a stake of `amount` on `side` is owed nothing by this market, if
    /// it is owed nothing. A void market owes every stake its refund; any
    /// other owes the winning side its share of both pools.
    pub open spec fn payout_error(self, side: Outcome, amount: u64) -> Option<ErrorCode> {
        if self.winning_outcome == Outcome::Void {
            if amount == 0 {
                Some(ErrorCode::NoPayout)
            } else {
                None
            }
        } else if side != self.winning_outcome {
            Some(ErrorCode::NoPayout)
        } else {
            payout_refusal(self.total_pool(), self.winning_pool(), amount as nat)
        }
    }

    /// What this market owes a stake of `amount`: the stake itself where the
    /// market is void, else its share of both pools, rounded down.
    pub open spec fn payout_due(self, amount: u64) -> nat {
        if self.winning_outcome == Outcome::Void {
            amount as nat
        } else {
            payout_of(self.total_pool(), self.winning_pool(), amount as nat)
        }
    }

    /// What this market owes a stake of `amount` on `side`.
    ///
    /// A void market refunds the stake. Any other pays the winning side
    /// `(total_yes + total_no) * amount / winning_pool`, rounded down, and
    /// the losing side nothing.
    pub fn payout_for(&self, side: Outcome, amount: u64) -> (r: Result<u64, ErrorCode>)
        ensures
            match r {
                Ok(paid) => {
                    &&& self.payout_error(side, amount) is None
                    &&& paid == self.payout_due(amount)
                },
                Err(e) => self.payout_error(side, amount) == Some(e),
            },
    {
        if self.winning_outcome == Outcome::Void {
            if amount == 0 {
                return Err(ErrorCode::NoPayout);
            }
            return Ok(amount);
        }
        if side != self.winning_outcome {
            return Err(ErrorCode::NoPayout);
        }
        let total_yes: u128 = self.total_yes as u128;
        let total_no: u128 = self.total_no as u128;
        let total_pool: u128 = total_yes + total_no;
        let winning_pool: u128 = if self.winning_outcome == Outcome::Yes {
            total_yes
        } else {
            total_no
        };
        payout(total_pool, winning_pool, amount)
    }
}

impl Position {
    /// Whether nothing is staked on the record. The first bet takes a blank
    /// record over, whatever it holds.
    pub open spec fn is_blank(self) -> bool {
        self.amount == 0
    }

    /// Whether `self` can be a later state of the position `prev`: the stake
    /// never shrinks, and once there is a stake the owner, the market and
    /// the side are kept and a claim is never undone.
    pub open spec fn evolves_from(self, prev: Position) -> bool {
        &&& self.amount >= prev.amount
        &&& !prev.is_blank() ==> {
            &&& self.owner == prev.owner
            &&& self.market == prev.market
            &&& self.outcome == prev.outcome
            &&& prev.claimed ==> self.claimed
        }
    }

    /// A record that no bet has been placed on yet.
    pub fn blank() -> (position: Position)
        ensures
            position.is_blank(),
            position.outcome == Outcome::Unset,
            !position.claimed,
            position.owner@ == Seq::new(32, |i: int| 0u8),
            position.market@ == Seq::new(32, |i: int| 0u8),
    {
        Position {
            owner: Pubkey::default(),
            market: Pubkey::default(),
            outcome: Outcome::Unset,
            claimed: false,
            amount: 0,
        }
    }
}

} // verus!
