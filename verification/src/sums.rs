//! Sums over sequences of natural numbers, as the laws of the engine need
//! them.

use vstd::prelude::*;

verus! {

/// The members of `values`, added up.
pub open spec fn total(values: Seq<nat>) -> nat
    decreases values.len(),
{
    if values.len() == 0 {
        0
    } else {
        total(values.drop_last()) + values.last()
    }
}

/// A sum of zeros is zero.
pub proof fn lemma_total_zeros(len: nat)
    ensures
        total(Seq::new(len, |i: int| 0nat)) == 0,
    decreases len,
{
    if len > 0 {
        lemma_total_zeros((len - 1) as nat);
        assert(Seq::new(len, |i: int| 0nat).drop_last() =~= Seq::new(
            (len - 1) as nat,
            |i: int| 0nat,
        ));
    }
}

/// Replacing one member changes the sum by the difference.
pub proof fn lemma_total_update(values: Seq<nat>, i: int, v: nat)
    requires
        0 <= i < values.len(),
    ensures
        total(values.update(i, v)) + values[i] == total(values) + v,
    decreases values.len(),
{
    let updated = values.update(i, v);
    if i == values.len() - 1 {
        assert(updated.drop_last() =~= values.drop_last());
    } else {
        lemma_total_update(values.drop_last(), i, v);
        assert(updated.drop_last() =~= values.drop_last().update(i, v));
    }
}

/// A sum is at most the sum of members that are each at least as large.
pub proof fn lemma_total_le(a: Seq<nat>, b: Seq<nat>)
    requires
        a.len() == b.len(),
        forall|i: int| 0 <= i < a.len() ==> #[trigger] a[i] <= b[i],
    ensures
        total(a) <= total(b),
    decreases a.len(),
{
    if a.len() > 0 {
        lemma_total_le(a.drop_last(), b.drop_last());
    }
}

/// The sum of member-wise sums is the sum of the sums.
pub proof fn lemma_total_add(a: Seq<nat>, b: Seq<nat>, c: Seq<nat>)
    requires
        a.len() == b.len(),
        a.len() == c.len(),
        forall|i: int| 0 <= i < a.len() ==> #[trigger] c[i] == a[i] + b[i],
    ensures
        total(c) == total(a) + total(b),
    decreases a.len(),
{
    if a.len() > 0 {
        lemma_total_add(a.drop_last(), b.drop_last(), c.drop_last());
    }
}

/// A bound that holds member by member after scaling holds of the sums:
/// where `a[i] * w <= t * b[i]` for every `i`, there
/// `total(a) * w <= t * total(b)`.
pub proof fn lemma_total_scaled(a: Seq<nat>, b: Seq<nat>, w: nat, t: nat)
    requires
        a.len() == b.len(),
        forall|i: int| 0 <= i < a.len() ==> (#[trigger] a[i]) * w <= t * b[i],
    ensures
        total(a) * w <= t * total(b),
    decreases a.len(),
{
    if a.len() == 0 {
        assert(0 * w == 0 && t * 0 == 0) by (nonlinear_arith);
    } else {
        lemma_total_scaled(a.drop_last(), b.drop_last(), w, t);
        let (ra, rb) = (total(a.drop_last()), total(b.drop_last()));
        let (la, lb) = (a.last(), b.last());
        assert(la * w <= t * lb);
        assert((ra + la) * w <= t * (rb + lb)) by (nonlinear_arith)
            requires
                ra * w <= t * rb,
                la * w <= t * lb,
        ;
    }
}

} // verus!
