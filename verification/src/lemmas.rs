//! Proved laws of the ledger: facts that relate several operations or hold of
//! every state, stated over the same specification functions that the
//! operations' contracts use.

use vstd::prelude::*;
use crate::errors::{FatalError, StakingError};
use crate::rewards::{
    saturating_elapsed, spec_base_rewards, spec_cliff_amount, spec_periods_completed,
    spec_reward_multiplier, spec_total_rewards, spec_vesting_amount, REWARD_SCALE,
};
use crate::staking::{valid_position, StakingContract, StakingPool, StakingPosition};
use vstd::arithmetic::div_mod::{lemma_div_is_ordered, lemma_div_of0, lemma_div_pos_is_pos};
use vstd::arithmetic::mul::lemma_mul_nonnegative;

verus! {

/// Re-initializing an already-initialized ledger fails with `NotInitialized`
/// whatever the arguments; with `initialize`'s contract, the stored
/// administrator and pool are untouched.
pub proof fn lemma_reinitialize_rejected(
    s: StakingContract,
    reward_rate: i128,
    min_stake: i128,
    max_stake: i128,
)
    requires
        s.spec_has_admin(),
    ensures
        s.spec_initialize_result(reward_rate, min_stake, max_stake) == Err::<(), StakingError>(
            StakingError::NotInitialized,
        ),
{
}

/// While a user's position is active, a second `stake` by the same user is
/// rejected with `AlreadyStaked`, for any vesting request and balance, as
/// long as the earlier validation steps do not reject first (emergency mode
/// off, amount within the pool bounds, recognized lock period); with
/// `stake`'s contract, the state and in particular `total_staked` are
/// unchanged.
pub proof fn lemma_second_stake_rejected(
    s: StakingContract,
    user: u64,
    amount: i128,
    lock_period: u64,
    vesting_periods: Option<u32>,
    user_balance: i128,
)
    requires
        s.wf(),
        s.spec_initialized(),
        s.positions@.dom().contains(user),
        !s.emergency_mode,
        s.spec_pool().min_stake <= amount <= s.spec_pool().max_stake,
        spec_reward_multiplier(lock_period) != 0,
    ensures
        s.spec_stake_result(user, amount, lock_period, vesting_periods, user_balance) == Ok::<
            Result<(), StakingError>,
            FatalError,
        >(Err(StakingError::AlreadyStaked)),
{
}

/// For a fixed position and pool with a nonnegative rate, the total accrued
/// rewards never decrease as time moves forward.
pub proof fn lemma_total_rewards_monotonic(
    p: StakingPosition,
    pool: StakingPool,
    t1: u64,
    t2: u64,
)
    requires
        valid_position(p),
        pool.reward_rate >= 0,
        t1 <= t2,
    ensures
        spec_total_rewards(p, pool, t1) <= spec_total_rewards(p, pool, t2),
{
    let dt1 = saturating_elapsed(t1, p.last_reward_time);
    let dt2 = saturating_elapsed(t2, p.last_reward_time);
    let ra = pool.reward_rate * p.amount;
    lemma_mul_nonnegative(pool.reward_rate as int, p.amount as int);
    assert(0 <= dt1 <= dt2);
    assert(ra * dt1 <= ra * dt2) by (nonlinear_arith)
        requires
            ra >= 0,
            0 <= dt1 <= dt2,
    ;
    lemma_mul_nonnegative(ra, dt1);
    lemma_div_is_ordered(ra * dt1, ra * dt2, REWARD_SCALE as int);
    lemma_div_pos_is_pos(ra * dt1, REWARD_SCALE as int);
    let base1 = spec_base_rewards(p, pool, t1);
    let base2 = spec_base_rewards(p, pool, t2);
    assert(0 <= base1 <= base2);
    assert(p.reward_multiplier == 100 || p.reward_multiplier == 150 || p.reward_multiplier == 200
        || p.reward_multiplier == 300);
    let m = p.reward_multiplier - 100;
    assert(base1 * m <= base2 * m) by (nonlinear_arith)
        requires
            base1 <= base2,
            m >= 0,
    ;
    lemma_div_is_ordered(base1 * m, base2 * m, 100);
}

/// The vesting release at its boundaries: before the first period completes,
/// the cliff is zero and nothing is releasable; once the schedule's full
/// period count has completed, exactly the whole total is releasable.
pub proof fn lemma_vesting_boundaries(p: StakingPosition, pool: StakingPool, now: u64)
    requires
        valid_position(p),
        p.has_vesting,
    ensures
        spec_periods_completed(p, now) == 0 ==> spec_cliff_amount(p, pool, now) == 0
            && spec_vesting_amount(p, pool, now) == 0,
        spec_periods_completed(p, now) >= p.vesting_total_periods ==> spec_vesting_amount(
            p,
            pool,
            now,
        ) == spec_total_rewards(p, pool, now),
{
    if spec_periods_completed(p, now) == 0 {
        lemma_div_of0(p.vesting_total_periods as int);
    }
}

/// Lock enforcement in `unstake`: with an active position, the attempt is
/// rejected with `LockPeriodNotExpired` exactly when the lock has not yet
/// expired and emergency mode is off; with emergency mode on, no recoverable
/// error is possible at all, regardless of elapsed time.
pub proof fn lemma_lock_enforcement(s: StakingContract, user: u64, now: u64)
    requires
        s.wf(),
        s.spec_initialized(),
        s.positions@.dom().contains(user),
    ensures
        (saturating_elapsed(now, s.positions@[user].start_time) < s.positions@[user].lock_period
            && !s.emergency_mode) <==> s.spec_unstake_result(user, now) == Ok::<
            Result<i128, StakingError>,
            FatalError,
        >(Err(StakingError::LockPeriodNotExpired)),
        s.emergency_mode ==> (match s.spec_unstake_result(user, now) {
            Ok(inner) => inner is Ok,
            Err(_) => true,
        }),
{
}

} // verus!
