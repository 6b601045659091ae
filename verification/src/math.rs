//! Fee and payout arithmetic.
//!
//! Every quantity is an unsigned integer. Products are formed at twice the
//! width of their operands, and a result that does not fit the width it is
//! stored in is refused with `Overflow`; nothing wraps, saturates or is
//! truncated.

use crate::error::ErrorCode;
use vstd::prelude::*;

verus! {

/// Fee rate charged on every deposit, in basis points: 3%.
pub const FEE_BPS: u64 = 300;

/// Number of basis points in the whole.
pub const BPS_DENOM: u64 = 10_000;

/// Whole tokens a single position may stake in total.
pub const MAX_TOKENS: u128 = 100;

/// The fee on a deposit of `amount` base units: 3%, rounded down.
pub open spec fn fee_of(amount: nat) -> nat {
    amount * 300 / 10_000
}

/// What a deposit of `amount` base units adds to a pool: the deposit less
/// its fee.
pub open spec fn net_of(amount: nat) -> nat {
    (amount - fee_of(amount)) as nat
}

/// Ten to the power `e`.
pub open spec fn pow10(e: nat) -> nat
    decreases e,
{
    if e == 0 {
        1
    } else {
        10 * pow10((e - 1) as nat)
    }
}

/// The most base units one position may hold of an asset with `decimals`
/// decimal places: one hundred whole tokens.
pub open spec fn bet_cap(decimals: nat) -> nat {
    100 * pow10(decimals)
}

/// The share of `total_pool` owed to a stake of `stake` in a winning pool of
/// `winning_pool`, rounded down.
pub open spec fn payout_of(total_pool: nat, winning_pool: nat, stake: nat) -> nat
    recommends
        winning_pool > 0,
{
    total_pool * stake / winning_pool
}

/// Splits a deposit into the fee kept back and the net amount that counts
/// towards a pool.
pub fn split_fee(amount: u64) -> (parts: (u64, u64))
    ensures
        parts.0 == fee_of(amount as nat),
        parts.1 == net_of(amount as nat),
        parts.0 + parts.1 == amount,
{
    assert(amount * FEE_BPS == amount * 300) by (nonlinear_arith)
        requires
            FEE_BPS == 300,
    ;
    let product: u128 = (amount as u128) * (FEE_BPS as u128);
    let wide: u128 = product / (BPS_DENOM as u128);
    assert(wide == fee_of(amount as nat));
    assert(wide <= amount);
    let fee: u64 = wide as u64;
    let net: u64 = amount - fee;
    (fee, net)
}

/// Powers of ten grow with the exponent.
pub proof fn lemma_pow10_increases(a: nat, b: nat)
    requires
        a <= b,
    ensures
        1 <= pow10(a) <= pow10(b),
    decreases b,
{
    if b == 0 {
    } else if a == b {
        lemma_pow10_increases(0, (b - 1) as nat);
    } else {
        lemma_pow10_increases(a, (b - 1) as nat);
    }
}

/// The cap fits 128 bits exactly for assets of up to 36 decimal places.
pub proof fn lemma_bet_cap_fits(decimals: nat)
    ensures
        bet_cap(decimals) <= u128::MAX <==> decimals <= 36,
        decimals <= 17 ==> bet_cap(decimals) <= u64::MAX,
        decimals >= 18 ==> bet_cap(decimals) > u64::MAX,
{
    assert(pow10(17) == 100_000_000_000_000_000) by {
        reveal_with_fuel(pow10, 18);
    }
    assert(pow10(18) == 10 * pow10(17)) by {
        reveal_with_fuel(pow10, 2);
    }
    assert(pow10(36) == pow10(18) * pow10(18)) by {
        lemma_pow10_adds(18, 18);
    }
    assert(pow10(37) == 10 * pow10(36)) by {
        reveal_with_fuel(pow10, 2);
    }
    if decimals <= 17 {
        lemma_pow10_increases(decimals, 17);
    } else if decimals <= 36 {
        lemma_pow10_increases(18, decimals);
        lemma_pow10_increases(decimals, 36);
    } else {
        lemma_pow10_increases(37, decimals);
    }
}

/// Exponents add when powers of ten are multiplied.
pub proof fn lemma_pow10_adds(a: nat, b: nat)
    ensures
        pow10(a + b) == pow10(a) * pow10(b),
    decreases a,
{
    if a == 0 {
        assert(pow10(0) == 1);
        assert(pow10(b) == 1 * pow10(b));
    } else {
        lemma_pow10_adds((a - 1) as nat, b);
        assert((a - 1) as nat + b == (a + b - 1) as nat);
        assert(pow10(a + b) == 10 * pow10((a + b - 1) as nat));
        assert(10 * (pow10((a - 1) as nat) * pow10(b)) == (10 * pow10((a - 1) as nat)) * pow10(b))
            by (nonlinear_arith);
    }
}

/// The per-position cap for an asset with `decimals` decimal places, or
/// `None` where the cap does not fit 128 bits.
pub fn max_total(decimals: u8) -> (cap: Option<u128>)
    ensures
        cap is Some <==> bet_cap(decimals as nat) <= u128::MAX,
        cap is Some <==> decimals <= 36,
        cap matches Some(c) ==> c == bet_cap(decimals as nat),
{
    let mut scale: u128 = 1;
    let mut i: u8 = 0;
    while i < decimals
        invariant
            i <= decimals,
            scale == pow10(i as nat),
        decreases decimals - i,
    {
        match scale.checked_mul(10) {
            Some(next) => {
                scale = next;
            },
            None => {
                proof {
                    assert(pow10((i + 1) as nat) == 10 * pow10(i as nat));
                    lemma_pow10_increases((i + 1) as nat, decimals as nat);
                    lemma_bet_cap_fits(decimals as nat);
                }
                return None;
            },
        }
        i += 1;
    }
    proof {
        lemma_bet_cap_fits(decimals as nat);
    }
    MAX_TOKENS.checked_mul(scale)
}

/// Adds a net deposit to a position's stake and holds the sum against the
/// cap.
///
/// The sum is refused with `BetExceedsLimit` where it passes the cap, and
/// with `Overflow` where the cap itself does not fit 128 bits or the sum
/// does not fit the 64 bits a stake is stored in.
pub fn check_cap(prior: u64, net: u64, decimals: u8) -> (r: Result<u64, ErrorCode>)
    ensures
        match r {
            Ok(total) => {
                &&& total == prior + net
                &&& total <= bet_cap(decimals as nat)
                &&& decimals <= 36
            },
            Err(e) => e == cap_refusal(prior as nat, net as nat, decimals as nat).unwrap(),
        },
        r is Ok <==> cap_refusal(prior as nat, net as nat, decimals as nat) is None,
{
    proof {
        lemma_bet_cap_fits(decimals as nat);
    }
    let cap: u128 = match max_total(decimals) {
        Some(cap) => cap,
        None => {
            return Err(ErrorCode::Overflow);
        },
    };
    let new_total: u128 = (prior as u128) + (net as u128);
    if new_total > cap {
        return Err(ErrorCode::BetExceedsLimit);
    }
    if new_total > u64::MAX as u128 {
        return Err(ErrorCode::Overflow);
    }
    Ok(new_total as u64)
}

/// Why a stake of `prior` cannot grow by `net`, if it cannot.
pub open spec fn cap_refusal(prior: nat, net: nat, decimals: nat) -> Option<ErrorCode> {
    if bet_cap(decimals) > u128::MAX {
        Some(ErrorCode::Overflow)
    } else if prior + net > bet_cap(decimals) {
        Some(ErrorCode::BetExceedsLimit)
    } else if prior + net > u64::MAX {
        Some(ErrorCode::Overflow)
    } else {
        None
    }
}

/// Why a stake of `stake` in a winning pool of `winning_pool` cannot be paid
/// out of `total_pool`, if it cannot.
pub open spec fn payout_refusal(total_pool: nat, winning_pool: nat, stake: nat) -> Option<
    ErrorCode,
> {
    if winning_pool == 0 {
        Some(ErrorCode::NoPayout)
    } else if total_pool * stake > u128::MAX {
        Some(ErrorCode::Overflow)
    } else if payout_of(total_pool, winning_pool, stake) > u64::MAX {
        Some(ErrorCode::Overflow)
    } else {
        None
    }
}

/// The proportional payout: `total_pool * stake / winning_pool`, rounded
/// down.
///
/// Refused with `NoPayout` where the winning pool is empty, and with
/// `Overflow` where the product does not fit 128 bits or the quotient does
/// not fit 64.
pub fn payout(total_pool: u128, winning_pool: u128, stake: u64) -> (r: Result<u64, ErrorCode>)
    ensures
        match r {
            Ok(paid) => paid == payout_of(total_pool as nat, winning_pool as nat, stake as nat),
            Err(e) => e == payout_refusal(
                total_pool as nat,
                winning_pool as nat,
                stake as nat,
            ).unwrap(),
        },
        r is Ok <==> payout_refusal(total_pool as nat, winning_pool as nat, stake as nat) is None,
{
    if winning_pool == 0 {
        return Err(ErrorCode::NoPayout);
    }
    let product: u128 = match total_pool.checked_mul(stake as u128) {
        Some(product) => product,
        None => {
            return Err(ErrorCode::Overflow);
        },
    };
    let quotient: u128 = product / winning_pool;
    if quotient > u64::MAX as u128 {
        return Err(ErrorCode::Overflow);
    }
    Ok(quotient as u64)
}

} // verus!
