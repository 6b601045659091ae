//! What holds of the engine across operations: no market pays out more than
//! its pools, nothing is paid twice, and a resolution is final.

use crate::error::{ErrorClass, ErrorCode};
use crate::instructions::{
    bet_refusal, claim_refusal, guarded, market_after_bet, position_after_bet, ClaimWinnings,
    PlaceBet,
};
use crate::math::{bet_cap, fee_of, net_of, payout_of};
use crate::outcome::Outcome;
use crate::state::{Market, Phase, Position};
use crate::sums::{
    lemma_total_add, lemma_total_le, lemma_total_scaled, lemma_total_zeros, total,
};
use vstd::prelude::*;

verus! {

/// What a position stakes on `side`: its stake where that is its side,
/// else nothing.
pub open spec fn stake_of(position: Position, side: Outcome) -> nat {
    if position.outcome == side {
        position.amount as nat
    } else {
        0
    }
}

/// The stakes that `positions` hold on `side`, added up.
pub open spec fn stake_on(positions: Seq<Position>, side: Outcome) -> nat {
    total(positions.map_values(|p: Position| stake_of(p, side)))
}

/// What `market` pays a position that claims: its payout where one is due,
/// nothing where the claim is refused.
pub open spec fn paid_to(market: Market, position: Position) -> nat {
    if market.payout_error(position.outcome, position.amount) is None {
        market.payout_due(position.amount)
    } else {
        0
    }
}

/// What `market` pays `positions` if every one of them claims.
pub open spec fn total_paid(market: Market, positions: Seq<Position>) -> nat {
    total(positions.map_values(|p: Position| paid_to(market, p)))
}

/// Whether every position that holds a stake holds it on `Yes` or on `No`.
pub open spec fn all_sided(positions: Seq<Position>) -> bool {
    forall|i: int|
        0 <= i < positions.len() ==> {
            let p = #[trigger] positions[i];
            p.is_blank() || p.outcome.is_side()
        }
}

/// A rounded-down share, multiplied back by the winning pool, is at most the
/// exact share, and misses it by less than the winning pool.
pub proof fn lemma_payout_rounds_down(total_pool: nat, winning_pool: nat, stake: nat)
    requires
        winning_pool > 0,
    ensures
        payout_of(total_pool, winning_pool, stake) * winning_pool <= total_pool * stake,
        total_pool * stake < (payout_of(total_pool, winning_pool, stake) + 1) * winning_pool,
{
    let product = total_pool * stake;
    assert(product == winning_pool * (product / winning_pool) + product % winning_pool) by {
        vstd::arithmetic::div_mod::lemma_fundamental_div_mod(product as int, winning_pool as int);
    }
    assert(0 <= product % winning_pool < winning_pool) by {
        vstd::arithmetic::div_mod::lemma_mod_bound(product as int, winning_pool as int);
    }
    assert((product / winning_pool) * winning_pool == winning_pool * (product / winning_pool))
        by (nonlinear_arith);
    assert((product / winning_pool + 1) * winning_pool == winning_pool * (product / winning_pool)
        + winning_pool) by (nonlinear_arith);
}

/// A winner is paid at least the stake, where the winning pool is not empty.
pub proof fn lemma_winner_keeps_stake(total_pool: nat, winning_pool: nat, stake: nat)
    requires
        0 < winning_pool <= total_pool,
    ensures
        payout_of(total_pool, winning_pool, stake) >= stake,
{
    lemma_payout_rounds_down(total_pool, winning_pool, stake);
    let paid = payout_of(total_pool, winning_pool, stake);
    if paid < stake {
        assert((paid + 1) * winning_pool <= stake * winning_pool) by (nonlinear_arith)
            requires
                paid + 1 <= stake,
        ;
        assert(stake * winning_pool <= total_pool * stake) by (nonlinear_arith)
            requires
                winning_pool <= total_pool,
        ;
    }
}

/// What a market pays one position, multiplied by the winning pool, is at
/// most both pools multiplied by the position's stake on the winning side.
proof fn lemma_paid_by_share(market: Market, position: Position)
    requires
        market.winning_outcome != Outcome::Void,
        market.winning_pool() > 0,
    ensures
        paid_to(market, position) * market.winning_pool() <= market.total_pool() * stake_of(
            position,
            market.winning_outcome,
        ),
{
    let w = market.winning_pool();
    let t = market.total_pool();
    let staked = stake_of(position, market.winning_outcome);
    if market.payout_error(position.outcome, position.amount) is None {
        lemma_payout_rounds_down(t, w, position.amount as nat);
    } else {
        assert(0 * w <= t * staked) by (nonlinear_arith);
    }
}

/// A market never pays out more than its two pools hold.
///
/// Take any market and any positions, each blank or on `Yes` or on `No`,
/// whose stakes on each side are covered by the pool of that side. If every
/// one of them claims, the payouts together are at most
/// `total_yes + total_no`, whichever way the market was resolved.
pub proof fn lemma_payouts_within_pools(market: Market, positions: Seq<Position>)
    requires
        all_sided(positions),
        stake_on(positions, Outcome::Yes) <= market.total_yes,
        stake_on(positions, Outcome::No) <= market.total_no,
    ensures
        total_paid(market, positions) <= market.total_yes + market.total_no,
{
    let side = market.winning_outcome;
    let w = market.winning_pool();
    let t = market.total_pool();
    let paid = positions.map_values(|p: Position| paid_to(market, p));
    let on_yes = positions.map_values(|p: Position| stake_of(p, Outcome::Yes));
    let on_no = positions.map_values(|p: Position| stake_of(p, Outcome::No));
    if side == Outcome::Void {
        // Every refund is the stake of a position on one of the two sides.
        let on_either = Seq::new(positions.len(), |i: int| on_yes[i] + on_no[i]);
        assert forall|i: int| 0 <= i < paid.len() implies #[trigger] paid[i] <= on_either[i] by {
            let p = positions[i];
            assert(p.is_blank() || p.outcome.is_side());
        }
        lemma_total_le(paid, on_either);
        lemma_total_add(on_yes, on_no, on_either);
    } else if w > 0 && side.is_side() {
        // Every payout is a rounded-down share of the stake on the winning
        // side, and those stakes are covered by the winning pool.
        let on_side = positions.map_values(|p: Position| stake_of(p, side));
        assert(on_side =~= if side == Outcome::Yes {
            on_yes
        } else {
            on_no
        });
        assert forall|i: int| 0 <= i < paid.len() implies (#[trigger] paid[i]) * w <= t
            * on_side[i] by {
            lemma_paid_by_share(market, positions[i]);
        }
        lemma_total_scaled(paid, on_side, w, t);
        let staked = total(on_side);
        assert(t * staked <= t * w) by (nonlinear_arith)
            requires
                staked <= w,
        ;
        assert(total(paid) <= t) by (nonlinear_arith)
            requires
                total(paid) * w <= t * w,
                w > 0,
        ;
    } else {
        // No position is on the side that won, or that side staked nothing.
        let nothing = Seq::new(positions.len(), |i: int| 0nat);
        assert forall|i: int| 0 <= i < paid.len() implies #[trigger] paid[i] <= nothing[i] by {
            let p = positions[i];
            assert(p.is_blank() || p.outcome.is_side());
            if market.payout_error(p.outcome, p.amount) is None {
                assert(p.amount == 0);
                assert(t * 0 / w == 0) by (nonlinear_arith)
                    requires
                        w > 0,
                ;
            }
        }
        lemma_total_le(paid, nothing);
        lemma_total_zeros(positions.len());
    }
}

/// The fee never exceeds 3% of the deposit, and a deposit that is not zero
/// always leaves something for the pool.
pub proof fn lemma_fee_bounds(amount: nat)
    ensures
        fee_of(amount) + net_of(amount) == amount,
        100 * fee_of(amount) <= 3 * amount,
        3 * amount < 100 * fee_of(amount) + 100,
        amount > 0 ==> net_of(amount) > 0,
{
}

/// A deposit is split exactly: fee and net amount add up to the deposit, and
/// the fee is the deposit times 300 over 10 000, rounded down. An accepted
/// bet adds the one to the accrued fees and the other to the pool and to the
/// position, so that the market accounts for every unit deposited.
pub proof fn lemma_deposit_is_conserved(ctx: PlaceBet, outcome: Outcome, amount: u64)
    requires
        bet_refusal(ctx, outcome, amount) is None,
    ensures
        fee_of(amount as nat) + net_of(amount as nat) == amount,
        fee_of(amount as nat) == amount as nat * 300 / 10_000,
        ({
            let after = market_after_bet(ctx.market, outcome, amount);
            &&& after.fees_accrued == ctx.market.fees_accrued + fee_of(amount as nat)
            &&& after.total_yes + after.total_no == ctx.market.total_yes + ctx.market.total_no
                + net_of(amount as nat)
        }),
        position_after_bet(ctx.position, ctx.bettor, ctx.market_key, outcome, amount).amount
            == ctx.position.amount + net_of(amount as nat),
{
}

/// A position never holds more than one hundred whole tokens: every
/// accepted bet leaves its stake within the cap, and a bet that would pass
/// the cap is refused.
pub proof fn lemma_stake_within_cap(ctx: PlaceBet, outcome: Outcome, amount: u64)
    ensures
        bet_refusal(ctx, outcome, amount) is None ==> position_after_bet(
            ctx.position,
            ctx.bettor,
            ctx.market_key,
            outcome,
            amount,
        ).amount <= bet_cap(ctx.decimals as nat),
        ctx.position.amount + net_of(amount as nat) > bet_cap(ctx.decimals as nat)
            ==> bet_refusal(ctx, outcome, amount) is Some,
{
}

/// Before the cutoff a market cannot be resolved, and stays as it is. The
/// authority is told that it is too early, which is a refusal on grounds of
/// timing, unless the market has been resolved before; anyone else is
/// refused as unauthorized.
pub proof fn lemma_no_resolution_before_cutoff(
    market: Market,
    now: i64,
    proposed: Outcome,
    authorized: bool,
)
    requires
        now < market.cutoff_ts,
    ensures
        guarded(authorized, market.resolve_refusal(now, proposed)) is Some,
        authorized && !market.resolved ==> {
            &&& guarded(authorized, market.resolve_refusal(now, proposed)) == Some(
                ErrorCode::TooEarly,
            )
            &&& ErrorCode::TooEarly.class_of() == ErrorClass::Timing
        },
{
}

/// A market with an empty pool is resolved as void, whatever outcome is
/// proposed, and every proposal is accepted for it.
pub proof fn lemma_empty_pool_voids(market: Market, now: i64, proposed: Outcome)
    requires
        market.one_sided(),
        !market.resolved,
        now >= market.cutoff_ts,
    ensures
        market.resolve_refusal(now, proposed) is None,
        market.settled_outcome(proposed) == Outcome::Void,
{
}

/// The phases of a market follow one another in one direction.
///
/// A bet is accepted only while the market is open, and leaves it open. The
/// cutoff is moved only while the market is open, and the market is open
/// afterwards. A market is resolved only once it is closed, and is resolved
/// afterwards, with `Yes`, `No` or `Void`. A claim is paid only once the
/// market is resolved.
pub proof fn lemma_phases_in_order(
    market: Market,
    now: i64,
    bet: PlaceBet,
    outcome: Outcome,
    amount: u64,
    new_cutoff_ts: i64,
    proposed: Outcome,
    claim: ClaimWinnings,
)
    requires
        bet.market == market,
        bet.now == now,
        claim.market == market,
    ensures
        bet_refusal(bet, outcome, amount) is None ==> {
            &&& market.phase_at(now) == Phase::Open
            &&& market_after_bet(market, outcome, amount).phase_at(now) == Phase::Open
        },
        market.cutoff_refusal(now, new_cutoff_ts) is None ==> {
            &&& market.phase_at(now) == Phase::Open
            &&& (Market { cutoff_ts: new_cutoff_ts, ..market }).phase_at(now) == Phase::Open
        },
        market.resolve_refusal(now, proposed) is None ==> {
            &&& market.phase_at(now) == Phase::Closed
            &&& (Market {
                resolved: true,
                winning_outcome: market.settled_outcome(proposed),
                ..market
            }).phase_at(now) == Phase::Resolved(market.settled_outcome(proposed))
            &&& market.settled_outcome(proposed) != Outcome::Unset
        },
        claim_refusal(claim) is None ==> market.phase_at(now) == Phase::Resolved(
            market.winning_outcome,
        ),
{
}

/// A resolution is final: a resolved market can be neither resolved again
/// nor rescheduled, and it takes no more bets.
pub proof fn lemma_resolution_is_final(
    market: Market,
    now: i64,
    proposed: Outcome,
    new_cutoff_ts: i64,
    ctx: PlaceBet,
    outcome: Outcome,
    amount: u64,
)
    requires
        market.resolved,
        ctx.market == market,
    ensures
        market.resolve_refusal(now, proposed) == Some(ErrorCode::AlreadyResolved),
        market.cutoff_refusal(now, new_cutoff_ts) == Some(ErrorCode::AlreadyResolved),
        bet_refusal(ctx, outcome, amount) is Some,
        amount > 0 ==> bet_refusal(ctx, outcome, amount) == Some(ErrorCode::MarketResolved),
{
}

/// A position is claimed at most once: after a claim that was paid, a
/// second claim in the same context is refused as already claimed, so that
/// no second transfer is issued.
pub proof fn lemma_claim_only_once(ctx: ClaimWinnings)
    requires
        claim_refusal(ctx) is None,
    ensures
        claim_refusal(
            ClaimWinnings { position: Position { claimed: true, ..ctx.position }, ..ctx },
        ) == Some(ErrorCode::AlreadyClaimed),
{
}

/// A position that is marked as claimed is never paid, whoever claims and
/// whatever the market: it is refused as claimed, or for a reason that is
/// checked before.
pub proof fn lemma_claimed_is_never_paid(ctx: ClaimWinnings)
    requires
        ctx.position.claimed,
    ensures
        claim_refusal(ctx) is Some,
{
}

/// Fees are swept at most once: after a sweep there are no fees, and a
/// second sweep is refused for want of them.
pub proof fn lemma_sweep_only_once(market: Market, authorized: bool)
    requires
        guarded(authorized, market.fees_refusal()) is None,
    ensures
        guarded(authorized, (Market { fees_accrued: 0, ..market }).fees_refusal()) == Some(
            ErrorCode::NoFees,
        ),
{
}

} // verus!
