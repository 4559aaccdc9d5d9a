//! The reward and vesting mathematics, as pure specification functions.
//!
//! `base_rewards` accrue per second on the staked amount at the pool's
//! fixed-point rate; `bonus_rewards` scale the base by the lock-period
//! multiplier; under vesting, only a cliff-or-linear fraction of the total is
//! releasable. `rewards_fatal` names the exact arithmetic fault, if any, that
//! the corresponding executable computation reports, in the order the
//! computation meets it.

use vstd::prelude::*;
use crate::errors::FatalError;
use crate::staking::{RewardCalculation, StakingPool, StakingPosition};

verus! {

/// Fixed-point scale: reward rates are stored multiplied by this constant.
pub const REWARD_SCALE: i128 = 1_000_000_000;

/// Denominator for basis-point percentages.
pub const BPS_DENOMINATOR: i128 = 10_000;

pub const LOCK_30_DAYS: u64 = 30 * 24 * 60 * 60;
pub const LOCK_90_DAYS: u64 = 90 * 24 * 60 * 60;
pub const LOCK_180_DAYS: u64 = 180 * 24 * 60 * 60;
pub const LOCK_365_DAYS: u64 = 365 * 24 * 60 * 60;

/// The lock-period policy: an exact-match table from the four recognized
/// durations to reward multipliers (percent, 100 = 1.0x). Every other
/// duration, however close, maps to 0, meaning invalid.
pub open spec fn spec_reward_multiplier(lock_period: u64) -> u32 {
    if lock_period == LOCK_30_DAYS {
        100
    } else if lock_period == LOCK_90_DAYS {
        150
    } else if lock_period == LOCK_180_DAYS {
        200
    } else if lock_period == LOCK_365_DAYS {
        300
    } else {
        0
    }
}

/// `now - earlier`, saturating at zero.
pub open spec fn saturating_elapsed(now: u64, earlier: u64) -> int {
    if now >= earlier {
        now - earlier
    } else {
        0
    }
}

/// Rewards accrued on the principal since the last claim, at the pool rate,
/// scaled back down by the fixed-point constant.
pub open spec fn spec_base_rewards(p: StakingPosition, pool: StakingPool, now: u64) -> int {
    (pool.reward_rate * p.amount * saturating_elapsed(now, p.last_reward_time)) / (
    REWARD_SCALE as int)
}

/// The multiplier's surplus over the base 100 percent, applied to the base.
pub open spec fn spec_bonus_rewards(p: StakingPosition, pool: StakingPool, now: u64) -> int {
    (spec_base_rewards(p, pool, now) * (p.reward_multiplier - 100)) / 100
}

pub open spec fn spec_total_rewards(p: StakingPosition, pool: StakingPool, now: u64) -> int {
    spec_base_rewards(p, pool, now) + spec_bonus_rewards(p, pool, now)
}

/// Whole vesting periods elapsed since the stake started. The vesting window
/// is measured from `start_time`, not from the last claim.
pub open spec fn spec_periods_completed(p: StakingPosition, now: u64) -> int {
    saturating_elapsed(now, p.start_time) / (p.vesting_period_duration as int)
}

/// The cliff release: zero before the first period completes, afterwards a
/// fixed basis-point share of the total.
pub open spec fn spec_cliff_amount(p: StakingPosition, pool: StakingPool, now: u64) -> int {
    if spec_periods_completed(p, now) == 0 {
        0
    } else {
        (spec_total_rewards(p, pool, now) * p.vesting_cliff_percentage) / (BPS_DENOMINATOR as int)
    }
}

/// The linear release: the completed fraction of the schedule, capped at the
/// full number of periods.
pub open spec fn spec_vested_amount(p: StakingPosition, pool: StakingPool, now: u64) -> int {
    let pc = spec_periods_completed(p, now);
    let maxp = p.vesting_total_periods as int;
    (spec_total_rewards(p, pool, now) * (if pc < maxp {
        pc
    } else {
        maxp
    })) / maxp
}

/// The releasable share of the total rewards: everything without vesting or
/// once the schedule has completed, otherwise the larger of the cliff and the
/// linear release.
pub open spec fn spec_vesting_amount(p: StakingPosition, pool: StakingPool, now: u64) -> int {
    if !p.has_vesting {
        spec_total_rewards(p, pool, now)
    } else {
        let pc = spec_periods_completed(p, now);
        let maxp = p.vesting_total_periods as int;
        if pc >= maxp {
            spec_total_rewards(p, pool, now)
        } else {
            let c = spec_cliff_amount(p, pool, now);
            let v = spec_vested_amount(p, pool, now);
            if c >= v {
                c
            } else {
                v
            }
        }
    }
}

pub open spec fn spec_claimable_amount(p: StakingPosition, pool: StakingPool, now: u64) -> int {
    spec_vesting_amount(p, pool, now)
}

/// The first arithmetic fault, if any, that the reward computation meets on
/// this snapshot, in evaluation order: the two base multiplications, the bonus
/// multiplication, the total addition, then under vesting the period division
/// and the cliff and linear multiplications.
pub open spec fn rewards_fatal(p: StakingPosition, pool: StakingPool, now: u64) -> Option<
    FatalError,
> {
    let dt = saturating_elapsed(now, p.last_reward_time);
    if pool.reward_rate * p.amount > i128::MAX {
        Some(FatalError::Overflow)
    } else if pool.reward_rate * p.amount * dt > i128::MAX {
        Some(FatalError::Overflow)
    } else if spec_base_rewards(p, pool, now) * (p.reward_multiplier - 100) > i128::MAX {
        Some(FatalError::Overflow)
    } else if spec_total_rewards(p, pool, now) > i128::MAX {
        Some(FatalError::Overflow)
    } else if !p.has_vesting {
        None
    } else if p.vesting_period_duration == 0 {
        Some(FatalError::DivisionByZero)
    } else {
        let pc = spec_periods_completed(p, now);
        let maxp = p.vesting_total_periods as int;
        let total = spec_total_rewards(p, pool, now);
        if pc >= maxp {
            None
        } else if pc != 0 && total * p.vesting_cliff_percentage > i128::MAX {
            Some(FatalError::Overflow)
        } else if total * pc > i128::MAX {
            Some(FatalError::Overflow)
        } else {
            None
        }
    }
}

/// The full reward snapshot on a fault-free computation.
pub open spec fn spec_reward_calculation(
    p: StakingPosition,
    pool: StakingPool,
    now: u64,
) -> RewardCalculation {
    RewardCalculation {
        base_rewards: spec_base_rewards(p, pool, now) as i128,
        bonus_rewards: spec_bonus_rewards(p, pool, now) as i128,
        total_rewards: spec_total_rewards(p, pool, now) as i128,
        vesting_amount: spec_vesting_amount(p, pool, now) as i128,
        claimable_amount: spec_vesting_amount(p, pool, now) as i128,
    }
}

} // verus!
