//! Raw accessors over the persisted ledger state, mirroring a key-value
//! persistence interface: `get`, `set`, `has`, `remove` for the administrator,
//! the pool, the emergency flag and the per-user positions.
//!
//! These state exactly which field they touch and nothing more. They do not
//! claim to preserve the ledger invariant `StakingContract::wf`; the lifecycle
//! operations do, and a caller that writes through these accessors directly is
//! on its own, exactly as with raw storage writes.

use vstd::prelude::*;
use crate::staking::{StakingContract, StakingPool, StakingPosition};

verus! {

broadcast use vstd::std_specs::hash::group_hash_axioms;

pub fn has_admin(s: &StakingContract) -> (r: bool)
    ensures
        r == s.spec_has_admin(),
{
    s.admin.is_some()
}

pub fn set_admin(s: &mut StakingContract, admin: u64)
    ensures
        final(s).admin == Some(admin),
        final(s).pool == old(s).pool,
        final(s).emergency_mode == old(s).emergency_mode,
        final(s).positions == old(s).positions,
{
    s.admin = Some(admin);
}

pub fn get_admin(s: &StakingContract) -> (r: u64)
    requires
        s.spec_has_admin(),
    ensures
        r == s.spec_admin(),
{
    s.admin.unwrap()
}

pub fn set_staking_pool(s: &mut StakingContract, pool: &StakingPool)
    ensures
        final(s).pool == Some(*pool),
        final(s).admin == old(s).admin,
        final(s).emergency_mode == old(s).emergency_mode,
        final(s).positions == old(s).positions,
{
    s.pool = Some(*pool);
}

pub fn get_staking_pool(s: &StakingContract) -> (r: StakingPool)
    requires
        s.pool is Some,
    ensures
        r == s.spec_pool(),
{
    s.pool.unwrap()
}

pub fn set_emergency_mode(s: &mut StakingContract, enabled: bool)
    ensures
        final(s).emergency_mode == enabled,
        final(s).admin == old(s).admin,
        final(s).pool == old(s).pool,
        final(s).positions == old(s).positions,
{
    s.emergency_mode = enabled;
}

pub fn get_emergency_mode(s: &StakingContract) -> (r: bool)
    ensures
        r == s.emergency_mode,
{
    s.emergency_mode
}

pub fn set_staking_position(s: &mut StakingContract, user: u64, position: &StakingPosition)
    ensures
        final(s).positions@ == old(s).positions@.insert(user, *position),
        final(s).admin == old(s).admin,
        final(s).pool == old(s).pool,
        final(s).emergency_mode == old(s).emergency_mode,
{
    s.positions.insert(user, *position);
}

pub fn get_staking_position(s: &StakingContract, user: u64) -> (r: Option<StakingPosition>)
    ensures
        s.positions@.dom().contains(user) ==> r == Some(s.positions@[user]),
        !s.positions@.dom().contains(user) ==> r is None,
{
    match s.positions.get(&user) {
        Some(p) => Some(*p),
        None => None,
    }
}

pub fn has_staking_position(s: &StakingContract, user: u64) -> (r: bool)
    ensures
        r == s.positions@.dom().contains(user),
{
    s.positions.contains_key(&user)
}

pub fn remove_staking_position(s: &mut StakingContract, user: u64)
    ensures
        final(s).positions@ == old(s).positions@.remove(user),
        final(s).admin == old(s).admin,
        final(s).pool == old(s).pool,
        final(s).emergency_mode == old(s).emergency_mode,
{
    s.positions.remove(&user);
}

} // verus!
