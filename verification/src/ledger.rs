//! The books of one market over its whole life.
//!
//! A ledger holds a market, the positions of its participants, and what the
//! escrow holding account holds. It changes as the operations of the engine
//! say, with every transfer they ask for carried out. What is shown here is
//! that the escrow always covers what the engine asks to be paid out of it.

use crate::instructions::{
    bet_refusal, claim_refusal, guarded, market_after_bet, position_after_bet, ClaimWinnings,
    PlaceBet,
};
use crate::laws::{all_sided, lemma_payouts_within_pools, paid_to, stake_of, stake_on};
use crate::math::{fee_of, net_of};
use crate::outcome::Outcome;
use crate::state::{Market, Position};
use crate::sums::{lemma_total_le, lemma_total_update, lemma_total_zeros, total};
use vstd::prelude::*;

verus! {

/// A market, the positions taken in it, and the balance of its escrow.
pub struct Ledger {
    pub market: Market,
    /// One position for each participant.
    pub positions: Seq<Position>,
    /// What the escrow holding account holds, in base units.
    pub escrow: nat,
}

/// What `market` still owes a position: what a claim would pay, unless the
/// position has been claimed.
pub open spec fn owed_to(market: Market, position: Position) -> nat {
    if position.claimed {
        0
    } else {
        paid_to(market, position)
    }
}

impl Ledger {
    /// What the market still owes all positions together.
    pub open spec fn owed(self) -> nat {
        total(self.positions.map_values(|p: Position| owed_to(self.market, p)))
    }

    /// Whether the books are in order.
    ///
    /// Until the market is resolved, each pool is the sum of the stakes on
    /// its side and the escrow holds exactly the pools and the accrued fees.
    /// From then on the escrow holds at least the accrued fees and what the
    /// market still owes.
    pub open spec fn balanced(self) -> bool {
        &&& all_sided(self.positions)
        &&& if self.market.resolved {
            self.escrow >= self.market.fees_accrued + self.owed()
        } else {
            &&& stake_on(self.positions, Outcome::Yes) == self.market.total_yes
            &&& stake_on(self.positions, Outcome::No) == self.market.total_no
            &&& self.escrow == self.market.total_yes + self.market.total_no
                + self.market.fees_accrued
        }
    }

    /// The books after participant `i` has placed an accepted bet and the
    /// deposit has entered escrow.
    pub open spec fn after_bet(
        self,
        i: int,
        ctx: PlaceBet,
        outcome: Outcome,
        amount: u64,
    ) -> Ledger {
        Ledger {
            market: market_after_bet(self.market, outcome, amount),
            positions: self.positions.update(
                i,
                position_after_bet(self.positions[i], ctx.bettor, ctx.market_key, outcome, amount),
            ),
            escrow: self.escrow + amount as nat,
        }
    }

    /// The books after the market has been resolved with `proposed`.
    pub open spec fn after_resolution(self, proposed: Outcome) -> Ledger {
        Ledger {
            market: Market {
                resolved: true,
                winning_outcome: self.market.settled_outcome(proposed),
                ..self.market
            },
            ..self
        }
    }

    /// The books after participant `i` has claimed and the payout has left
    /// escrow.
    pub open spec fn after_claim(self, i: int) -> Ledger {
        Ledger {
            positions: self.positions.update(i, Position { claimed: true, ..self.positions[i] }),
            escrow: (self.escrow - self.market.payout_due(self.positions[i].amount)) as nat,
            ..self
        }
    }

    /// The books after the fees have been swept and have left escrow.
    pub open spec fn after_sweep(self) -> Ledger {
        Ledger {
            market: Market { fees_accrued: 0, ..self.market },
            escrow: (self.escrow - self.market.fees_accrued) as nat,
            ..self
        }
    }

    /// The books of a new market are in order: nothing has been bet, and the
    /// escrow is empty.
    pub proof fn lemma_opening_is_balanced(market: Market, positions: Seq<Position>)
        requires
            !market.resolved,
            market.total_yes == 0,
            market.total_no == 0,
            market.fees_accrued == 0,
            forall|i: int| 0 <= i < positions.len() ==> (#[trigger] positions[i]).is_blank(),
        ensures
            (Ledger { market, positions, escrow: 0 }).balanced(),
    {
        let nothing = Seq::new(positions.len(), |i: int| 0nat);
        lemma_total_le(positions.map_values(|p: Position| stake_of(p, Outcome::Yes)), nothing);
        lemma_total_le(positions.map_values(|p: Position| stake_of(p, Outcome::No)), nothing);
        lemma_total_zeros(positions.len());
    }

    /// An accepted bet keeps the books in order.
    pub proof fn lemma_bet_keeps_balance(
        self,
        i: int,
        ctx: PlaceBet,
        outcome: Outcome,
        amount: u64,
    )
        requires
            self.balanced(),
            0 <= i < self.positions.len(),
            ctx.market == self.market,
            ctx.position == self.positions[i],
            bet_refusal(ctx, outcome, amount) is None,
        ensures
            self.after_bet(i, ctx, outcome, amount).balanced(),
    {
        let after = self.after_bet(i, ctx, outcome, amount);
        let after_position = after.positions[i];
        let net = net_of(amount as nat);
        assert(fee_of(amount as nat) + net == amount);
        assert(all_sided(after.positions)) by {
            assert forall|j: int| 0 <= j < after.positions.len() implies ({
                let p = #[trigger] after.positions[j];
                p.is_blank() || p.outcome.is_side()
            }) by {
                if j != i {
                    assert(after.positions[j] == self.positions[j]);
                }
            }
        }
        lemma_stake_update(self.positions, i, after_position, Outcome::Yes);
        lemma_stake_update(self.positions, i, after_position, Outcome::No);
    }

    /// A resolution keeps the books in order: whatever the outcome, the
    /// pools cover what the market then owes.
    pub proof fn lemma_resolution_keeps_balance(self, now: i64, proposed: Outcome)
        requires
            self.balanced(),
            self.market.resolve_refusal(now, proposed) is None,
        ensures
            self.after_resolution(proposed).balanced(),
    {
        let after = self.after_resolution(proposed);
        lemma_payouts_within_pools(after.market, after.positions);
        lemma_total_le(
            after.positions.map_values(|p: Position| owed_to(after.market, p)),
            after.positions.map_values(|p: Position| paid_to(after.market, p)),
        );
    }

    /// The escrow covers every payout, and a payout keeps the books in
    /// order.
    pub proof fn lemma_claim_keeps_balance(self, i: int, ctx: ClaimWinnings)
        requires
            self.balanced(),
            0 <= i < self.positions.len(),
            ctx.market == self.market,
            ctx.position == self.positions[i],
            claim_refusal(ctx) is None,
        ensures
            self.market.payout_due(self.positions[i].amount) <= self.escrow,
            self.after_claim(i).balanced(),
    {
        let after = self.after_claim(i);
        let dues = self.positions.map_values(|p: Position| owed_to(self.market, p));
        lemma_total_update(dues, i, 0);
        assert(after.positions.map_values(|p: Position| owed_to(after.market, p)) =~= dues.update(
            i,
            0,
        ));
        assert(all_sided(after.positions)) by {
            assert forall|j: int| 0 <= j < after.positions.len() implies ({
                let p = #[trigger] after.positions[j];
                p.is_blank() || p.outcome.is_side()
            }) by {
                if j != i {
                    assert(after.positions[j] == self.positions[j]);
                } else {
                    assert(self.positions[i].is_blank() || self.positions[i].outcome.is_side());
                }
            }
        }
    }

    /// The escrow covers the accrued fees, and a sweep keeps the books in
    /// order.
    pub proof fn lemma_sweep_keeps_balance(self, authorized: bool)
        requires
            self.balanced(),
            guarded(authorized, self.market.fees_refusal()) is None,
        ensures
            self.market.fees_accrued <= self.escrow,
            self.after_sweep().balanced(),
    {
        let after = self.after_sweep();
        assert(after.positions.map_values(|p: Position| owed_to(after.market, p))
            =~= self.positions.map_values(|p: Position| owed_to(self.market, p)));
    }

    /// Moving the cutoff keeps the books in order.
    pub proof fn lemma_cutoff_keeps_balance(self, now: i64, new_cutoff_ts: i64)
        requires
            self.balanced(),
            self.market.cutoff_refusal(now, new_cutoff_ts) is None,
        ensures
            (Ledger {
                market: Market { cutoff_ts: new_cutoff_ts, ..self.market },
                ..self
            }).balanced(),
    {
    }
}

/// Replacing one position changes the stakes on a side by the difference of
/// what the two stake on it.
proof fn lemma_stake_update(positions: Seq<Position>, i: int, position: Position, side: Outcome)
    requires
        0 <= i < positions.len(),
    ensures
        stake_on(positions.update(i, position), side) + stake_of(positions[i], side) == stake_on(
            positions,
            side,
        ) + stake_of(position, side),
{
    let stakes = positions.map_values(|p: Position| stake_of(p, side));
    lemma_total_update(stakes, i, stake_of(position, side));
    assert(positions.update(i, position).map_values(|p: Position| stake_of(p, side))
        =~= stakes.update(i, stake_of(position, side)));
}

} // verus!
