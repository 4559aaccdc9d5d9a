//! Aggregation of staked principal over the position ledger.
//!
//! `staked_sum` totals the `amount` fields of a position map; the lemmas here
//! relate it to single-key insertions, updates and removals, which is what the
//! lifecycle transitions need to keep `pool.total_staked` equal to the sum of
//! all staked principal.

use vstd::prelude::*;
use crate::staking::StakingPosition;

verus! {

/// The sum of the staked amounts of every position in the map.
pub open spec fn staked_sum(m: Map<u64, StakingPosition>) -> int
    decreases m.dom().len(),
{
    if m.dom().finite() && m.dom().len() > 0 {
        let u = m.dom().choose();
        m[u].amount + staked_sum(m.remove(u))
    } else {
        0
    }
}

/// Splitting off any one key of the map splits its amount out of the sum.
pub proof fn lemma_staked_sum_remove(m: Map<u64, StakingPosition>, u: u64)
    requires
        m.dom().finite(),
        m.dom().contains(u),
    ensures
        staked_sum(m) == m[u].amount + staked_sum(m.remove(u)),
    decreases m.dom().len(),
{
    let c = m.dom().choose();
    assert(m.dom().len() > 0);
    if c == u {
    } else {
        assert(m.remove(c).dom().contains(u));
        assert(m.remove(u).dom().contains(c));
        lemma_staked_sum_remove(m.remove(c), u);
        lemma_staked_sum_remove(m.remove(u), c);
        assert(m.remove(c).remove(u) =~= m.remove(u).remove(c));
    }
}

/// Inserting a fresh key adds its amount to the sum.
pub proof fn lemma_staked_sum_insert(m: Map<u64, StakingPosition>, u: u64, p: StakingPosition)
    requires
        m.dom().finite(),
        !m.dom().contains(u),
    ensures
        staked_sum(m.insert(u, p)) == staked_sum(m) + p.amount,
{
    lemma_staked_sum_remove(m.insert(u, p), u);
    assert(m.insert(u, p).remove(u) =~= m);
}

/// Overwriting an existing key swaps its amount in the sum.
pub proof fn lemma_staked_sum_update(m: Map<u64, StakingPosition>, u: u64, p: StakingPosition)
    requires
        m.dom().finite(),
        m.dom().contains(u),
    ensures
        staked_sum(m.insert(u, p)) == staked_sum(m) - m[u].amount + p.amount,
{
    lemma_staked_sum_remove(m, u);
    lemma_staked_sum_insert(m.remove(u), u, p);
    assert(m.remove(u).insert(u, p) =~= m.insert(u, p));
}

/// A ledger of nonnegative principals has a nonnegative total.
pub proof fn lemma_staked_sum_nonneg(m: Map<u64, StakingPosition>)
    requires
        m.dom().finite(),
        forall|u: u64| #[trigger] m.dom().contains(u) ==> m[u].amount >= 0,
    ensures
        staked_sum(m) >= 0,
    decreases m.dom().len(),
{
    if m.dom().len() > 0 {
        let c = m.dom().choose();
        lemma_staked_sum_nonneg(m.remove(c));
    }
}

} // verus!
