//! The staking ledger: pool configuration, per-user positions, and the
//! stake / claim / unstake lifecycle as guarded state transitions.
//!
//! `StakingContract` is the complete persisted state of the ledger. The
//! hosting environment authorizes the caller, supplies the current time and
//! the caller's token balance as plain inputs, performs the token transfers
//! that a successful transition decides on, and persists the state; a
//! transition that reports a `FatalError` must be discarded wholesale.

use vstd::prelude::*;
use std::collections::HashMap;
use crate::errors::{FatalError, StakingError};
use crate::rewards::{
    rewards_fatal, saturating_elapsed, spec_claimable_amount, spec_reward_calculation,
    spec_reward_multiplier, BPS_DENOMINATOR, LOCK_180_DAYS, LOCK_30_DAYS, LOCK_365_DAYS,
    LOCK_90_DAYS, REWARD_SCALE,
};
use crate::totals::{
    lemma_staked_sum_insert, lemma_staked_sum_nonneg, lemma_staked_sum_remove,
    lemma_staked_sum_update, staked_sum,
};
use vstd::arithmetic::mul::lemma_mul_nonnegative;

verus! {

broadcast use vstd::std_specs::hash::group_hash_axioms;

/// One staking position: the principal, its timing, the lock-period
/// multiplier, and the optional vesting schedule attached at stake time.
#[derive(Clone, Copy, Debug, PartialEq, Eq, Structural)]
pub struct StakingPosition {
    pub user: u64,
    pub amount: i128,
    pub start_time: u64,
    pub last_reward_time: u64,
    pub reward_multiplier: u32,
    pub lock_period: u64,
    pub has_vesting: bool,
    pub vesting_total_periods: u32,
    pub vesting_current_period: u32,
    pub vesting_period_duration: u64,
    pub vesting_cliff_percentage: u32,
}

/// A cliff-plus-linear vesting schedule.
#[derive(Clone, Copy, Debug, PartialEq, Eq, Structural)]
pub struct VestingSchedule {
    pub total_periods: u32,
    pub current_period: u32,
    pub period_duration: u64,
    pub cliff_percentage: u32,
}

/// The pool-wide configuration and aggregate totals.
#[derive(Clone, Copy, Debug, PartialEq, Eq, Structural)]
pub struct StakingPool {
    pub token: u64,
    pub total_staked: i128,
    pub reward_rate: i128,
    pub bonus_multiplier: u32,
    pub min_stake: i128,
    pub max_stake: i128,
    pub emergency_withdrawal_fee: u32,
}

/// The ephemeral output of the reward engine; never persisted.
#[derive(Clone, Copy, Debug, PartialEq, Eq, Structural)]
pub struct RewardCalculation {
    pub base_rewards: i128,
    pub bonus_rewards: i128,
    pub total_rewards: i128,
    pub vesting_amount: i128,
    pub claimable_amount: i128,
}

/// The structural invariant of every stored position: nonnegative principal,
/// a multiplier that the lock-period policy actually assigns, and a vesting
/// block that is either fully disabled or exactly as `stake` derives it.
pub open spec fn valid_position(p: StakingPosition) -> bool {
    &&& p.amount >= 0
    &&& p.reward_multiplier == spec_reward_multiplier(p.lock_period)
    &&& p.reward_multiplier != 0
    &&& p.vesting_current_period <= p.vesting_total_periods
    &&& (!p.has_vesting ==> p.vesting_total_periods == 0 && p.vesting_period_duration == 0
        && p.vesting_cliff_percentage == 0)
    &&& (p.has_vesting ==> p.vesting_total_periods >= 1 && p.vesting_cliff_percentage == 2500
        && p.vesting_period_duration == p.lock_period / (p.vesting_total_periods as u64))
}

/// The configuration invariant of the pool.
pub open spec fn valid_pool(pl: StakingPool) -> bool {
    &&& pl.reward_rate >= 0
    &&& 0 <= pl.min_stake < pl.max_stake
    &&& pl.total_staked >= 0
    &&& pl.emergency_withdrawal_fee <= 10_000
}

/// The complete persisted state of the staking ledger: the administrator,
/// the pool, the emergency flag, and one position slot per user.
pub struct StakingContract {
    pub admin: Option<u64>,
    pub pool: Option<StakingPool>,
    pub emergency_mode: bool,
    pub positions: HashMap<u64, StakingPosition>,
}

impl StakingContract {
    pub open spec fn spec_has_admin(self) -> bool {
        self.admin is Some
    }

    pub open spec fn spec_initialized(self) -> bool {
        self.admin is Some && self.pool is Some
    }

    pub open spec fn spec_pool(self) -> StakingPool {
        self.pool.unwrap()
    }

    pub open spec fn spec_admin(self) -> u64 {
        self.admin.unwrap()
    }

    /// The ledger invariant that every operation preserves: positions are
    /// stored under their owner's key and structurally valid, the pool exists
    /// only once an administrator does, positions exist only once the pool
    /// does, and `total_staked` is exactly the sum of all staked principal.
    pub open spec fn wf(self) -> bool {
        &&& forall|u: u64| self.positions@.dom().contains(u) ==> (#[trigger] self.positions@[u]).user
            == u && valid_position(self.positions@[u])
        &&& (self.pool matches Some(p) ==> valid_pool(p) && p.total_staked == staked_sum(
            self.positions@,
        ))
        &&& (self.pool is Some ==> self.admin is Some)
        &&& (self.pool is None ==> self.positions@ == Map::<u64, StakingPosition>::empty())
    }

    /// A fresh, uninitialized ledger.
    pub fn new() -> (s: Self)
        ensures
            s.admin is None,
            s.pool is None,
            !s.emergency_mode,
            s.positions@ == Map::<u64, StakingPosition>::empty(),
            s.wf(),
    {
        StakingContract {
            admin: None,
            pool: None,
            emergency_mode: false,
            positions: HashMap::new(),
        }
    }

    /// The lock-period policy: reward multiplier for the four recognized
    /// durations, 0 for every other value.
    pub fn get_reward_multiplier(lock_period: u64) -> (r: u32)
        ensures
            r == spec_reward_multiplier(lock_period),
            (r == 100 <==> lock_period == LOCK_30_DAYS),
            (r == 150 <==> lock_period == LOCK_90_DAYS),
            (r == 200 <==> lock_period == LOCK_180_DAYS),
            (r == 300 <==> lock_period == LOCK_365_DAYS),
            (r == 0 <==> lock_period != LOCK_30_DAYS && lock_period != LOCK_90_DAYS && lock_period
                != LOCK_180_DAYS && lock_period != LOCK_365_DAYS),
    {
        if lock_period == LOCK_30_DAYS {
            100
        } else if lock_period == LOCK_90_DAYS {
            150
        } else if lock_period == LOCK_180_DAYS {
            200
        } else if lock_period == LOCK_365_DAYS {
            300
        } else {
            0
        }
    }

    /// The exact outcome of `initialize` on this state.
    pub open spec fn spec_initialize_result(
        self,
        reward_rate: i128,
        min_stake: i128,
        max_stake: i128,
    ) -> Result<(), StakingError> {
        if self.admin is Some {
            Err(StakingError::NotInitialized)
        } else if reward_rate < 0 {
            Err(StakingError::InvalidPoolConfig)
        } else if min_stake < 0 || max_stake <= min_stake {
            Err(StakingError::InvalidPoolConfig)
        } else {
            Ok(())
        }
    }

    /// The exact outcome of `stake` on this state. Arguments are checked in
    /// the order the operation checks them; the two fatal arms are the
    /// vesting-period division and the `total_staked` addition.
    pub open spec fn spec_stake_result(
        self,
        user: u64,
        amount: i128,
        lock_period: u64,
        vesting_periods: Option<u32>,
        user_balance: i128,
    ) -> Result<Result<(), StakingError>, FatalError> {
        let pool = self.spec_pool();
        if self.emergency_mode {
            Ok(Err(StakingError::EmergencyMode))
        } else if amount < pool.min_stake || amount > pool.max_stake {
            Ok(Err(StakingError::InvalidAmount))
        } else if spec_reward_multiplier(lock_period) == 0 {
            Ok(Err(StakingError::InvalidLockPeriod))
        } else if self.positions@.dom().contains(user) {
            Ok(Err(StakingError::AlreadyStaked))
        } else if vesting_periods == Some(0u32) {
            Err(FatalError::DivisionByZero)
        } else if user_balance < amount {
            Ok(Err(StakingError::InsufficientBalance))
        } else if pool.total_staked + amount > i128::MAX {
            Err(FatalError::Overflow)
        } else {
            Ok(Ok(()))
        }
    }

    /// The exact outcome of `unstake` on this state.
    pub open spec fn spec_unstake_result(self, user: u64, now: u64) -> Result<
        Result<i128, StakingError>,
        FatalError,
    > {
        let pool = self.spec_pool();
        if !self.positions@.dom().contains(user) {
            Ok(Err(StakingError::NotStaked))
        } else {
            let p = self.positions@[user];
            if saturating_elapsed(now, p.start_time) < p.lock_period && !self.emergency_mode {
                Ok(Err(StakingError::LockPeriodNotExpired))
            } else {
                match rewards_fatal(p, pool, now) {
                    Some(f) => Err(f),
                    None => {
                        if p.amount + spec_claimable_amount(p, pool, now) > i128::MAX {
                            Err(FatalError::Overflow)
                        } else {
                            Ok(Ok(spec_claimable_amount(p, pool, now) as i128))
                        }
                    },
                }
            }
        }
    }

    /// The exact outcome of `claim_rewards` on this state.
    pub open spec fn spec_claim_result(self, user: u64, now: u64) -> Result<
        Result<i128, StakingError>,
        FatalError,
    > {
        let pool = self.spec_pool();
        if !self.positions@.dom().contains(user) {
            Ok(Err(StakingError::NotStaked))
        } else {
            match rewards_fatal(self.positions@[user], pool, now) {
                Some(f) => Err(f),
                None => Ok(Ok(spec_claimable_amount(self.positions@[user], pool, now) as i128)),
            }
        }
    }

    /// The exact outcome of `get_pending_rewards` on this state.
    pub open spec fn spec_pending_rewards(self, user: u64, now: u64) -> Result<
        Result<RewardCalculation, StakingError>,
        FatalError,
    > {
        if !self.positions@.dom().contains(user) {
            Ok(Err(StakingError::NotStaked))
        } else {
            match rewards_fatal(self.positions@[user], self.spec_pool(), now) {
                Some(f) => Err(f),
                None => Ok(
                    Ok(spec_reward_calculation(self.positions@[user], self.spec_pool(), now)),
                ),
            }
        }
    }

    /// The exact outcome of `update_pool` on this state.
    pub open spec fn spec_update_pool_result(
        self,
        admin: u64,
        reward_rate: Option<i128>,
        bonus_multiplier: Option<u32>,
    ) -> Result<(), StakingError> {
        if admin != self.spec_admin() {
            Err(StakingError::Unauthorized)
        } else if reward_rate matches Some(rr) && rr < 0 {
            Err(StakingError::InvalidPoolConfig)
        } else {
            Ok(())
        }
    }

    /// The reward engine: a pure snapshot of base, bonus, total and releasable
    /// rewards for a position at `current_time`. Mutates nothing; an
    /// arithmetic fault is reported rather than clamped.
    pub fn calculate_rewards(
        position: &StakingPosition,
        pool: &StakingPool,
        current_time: u64,
    ) -> (r: Result<RewardCalculation, FatalError>)
        requires
            valid_position(*position),
            pool.reward_rate >= 0,
        ensures
            (rewards_fatal(*position, *pool, current_time) matches Some(f) ==> r == Err::<
                RewardCalculation,
                FatalError,
            >(f)),
            rewards_fatal(*position, *pool, current_time) is None ==> r == Ok::<
                RewardCalculation,
                FatalError,
            >(spec_reward_calculation(*position, *pool, current_time)),
            (r matches Ok(rc) ==> rc.claimable_amount == rc.vesting_amount && rc.base_rewards >= 0
                && rc.bonus_rewards >= 0 && rc.total_rewards >= 0 && rc.claimable_amount >= 0),
            rewards_fatal(*position, *pool, current_time) is None ==> 0 <= spec_claimable_amount(
                *position,
                *pool,
                current_time,
            ) <= i128::MAX,
    {
        let time_since_last_reward = current_time.saturating_sub(position.last_reward_time);
        let total_time_staked = current_time.saturating_sub(position.start_time);

        proof {
            lemma_mul_nonnegative(pool.reward_rate as int, position.amount as int);
        }
        let rate_amount = match pool.reward_rate.checked_mul(position.amount) {
            Some(v) => v,
            None => {
                return Err(FatalError::Overflow);
            },
        };
        proof {
            lemma_mul_nonnegative(rate_amount as int, time_since_last_reward as int);
        }
        let scaled = match rate_amount.checked_mul(time_since_last_reward as i128) {
            Some(v) => v,
            None => {
                return Err(FatalError::Overflow);
            },
        };
        let base_rewards = scaled / REWARD_SCALE;

        assert(position.reward_multiplier == 100 || position.reward_multiplier == 150
            || position.reward_multiplier == 200 || position.reward_multiplier == 300);
        let bonus_multiplier = position.reward_multiplier as i128;
        proof {
            lemma_mul_nonnegative(base_rewards as int, bonus_multiplier - 100);
        }
        let bonus_scaled = match base_rewards.checked_mul(bonus_multiplier - 100) {
            Some(v) => v,
            None => {
                return Err(FatalError::Overflow);
            },
        };
        let bonus_rewards = bonus_scaled / 100;

        let total_rewards = match base_rewards.checked_add(bonus_rewards) {
            Some(v) => v,
            None => {
                return Err(FatalError::Overflow);
            },
        };

        let vesting_amount: i128 = if position.has_vesting {
            if position.vesting_period_duration == 0 {
                return Err(FatalError::DivisionByZero);
            }
            let periods_completed = total_time_staked / position.vesting_period_duration;
            let max_periods = position.vesting_total_periods as u64;

            if periods_completed >= max_periods {
                total_rewards
            } else {
                let cliff_amount: i128 = if periods_completed == 0 {
                    0
                } else {
                    proof {
                        lemma_mul_nonnegative(
                            total_rewards as int,
                            position.vesting_cliff_percentage as int,
                        );
                    }
                    match total_rewards.checked_mul(position.vesting_cliff_percentage as i128) {
                        Some(v) => v / BPS_DENOMINATOR,
                        None => {
                            return Err(FatalError::Overflow);
                        },
                    }
                };
                let vested_periods = if periods_completed < max_periods {
                    periods_completed
                } else {
                    max_periods
                };
                proof {
                    lemma_mul_nonnegative(total_rewards as int, vested_periods as int);
                }
                let vested_amount: i128 = match total_rewards.checked_mul(vested_periods as i128) {
                    Some(v) => v / (max_periods as i128),
                    None => {
                        return Err(FatalError::Overflow);
                    },
                };
                if cliff_amount >= vested_amount {
                    cliff_amount
                } else {
                    vested_amount
                }
            }
        } else {
            total_rewards
        };

        Ok(
            RewardCalculation {
                base_rewards,
                bonus_rewards,
                total_rewards,
                vesting_amount,
                claimable_amount: vesting_amount,
            },
        )
    }

    /// Set up the administrator and the pool, once. A second call fails with
    /// `NotInitialized` whatever its arguments and changes nothing; invalid
    /// configuration fails with `InvalidPoolConfig` and changes nothing. The
    /// early-withdrawal fee is fixed at 500 basis points.
    pub fn initialize(
        &mut self,
        admin: u64,
        token: u64,
        reward_rate: i128,
        bonus_multiplier: u32,
        min_stake: i128,
        max_stake: i128,
    ) -> (r: Result<(), StakingError>)
        requires
            old(self).wf(),
        ensures
            final(self).wf(),
            r == old(self).spec_initialize_result(reward_rate, min_stake, max_stake),
            r is Ok ==> *final(self) == (StakingContract {
                admin: Some(admin),
                pool: Some(spec_initial_pool(token, reward_rate, bonus_multiplier, min_stake, max_stake)),
                emergency_mode: false,
                positions: old(self).positions,
            }),
            r is Err ==> *final(self) == *old(self),
    {
        if self.admin.is_some() {
            return Err(StakingError::NotInitialized);
        }
        if reward_rate < 0 {
            return Err(StakingError::InvalidPoolConfig);
        }
        if min_stake < 0 || max_stake <= min_stake {
            return Err(StakingError::InvalidPoolConfig);
        }
        self.admin = Some(admin);
        self.pool = Some(
            StakingPool {
                token,
                total_staked: 0,
                reward_rate,
                bonus_multiplier,
                min_stake,
                max_stake,
                emergency_withdrawal_fee: 500,
            },
        );
        self.emergency_mode = false;
        Ok(())
    }

    /// Open a position: validate the amount against the pool bounds, the lock
    /// period against the policy and the one-position-per-user rule, derive
    /// the vesting schedule if one is requested, and check the caller's
    /// balance. On success the host must have transferred `amount` from the
    /// user to the pool; `total_staked` grows by exactly `amount`.
    pub fn stake(
        &mut self,
        user: u64,
        amount: i128,
        lock_period: u64,
        vesting_periods: Option<u32>,
        now: u64,
        user_balance: i128,
    ) -> (r: Result<Result<(), StakingError>, FatalError>)
        requires
            old(self).wf(),
            old(self).spec_initialized(),
        ensures
            final(self).wf(),
            final(self).spec_initialized(),
            r == old(self).spec_stake_result(user, amount, lock_period, vesting_periods, user_balance),
            r == Ok::<Result<(), StakingError>, FatalError>(Ok(())) ==> {
                &&& final(self).positions@ == old(self).positions@.insert(
                    user,
                    spec_new_position(user, amount, lock_period, vesting_periods, now),
                )
                &&& final(self).pool == Some(StakingPool {
                    total_staked: (old(self).spec_pool().total_staked + amount) as i128,
                    ..old(self).spec_pool()
                })
                &&& final(self).spec_pool().total_staked == old(self).spec_pool().total_staked + amount
                &&& final(self).admin == old(self).admin
                &&& final(self).emergency_mode == old(self).emergency_mode
            },
            r != Ok::<Result<(), StakingError>, FatalError>(Ok(())) ==> *final(self) == *old(self),
    {
        let pool = self.pool.unwrap();
        if self.emergency_mode {
            return Ok(Err(StakingError::EmergencyMode));
        }
        if amount < pool.min_stake || amount > pool.max_stake {
            return Ok(Err(StakingError::InvalidAmount));
        }
        let reward_multiplier = Self::get_reward_multiplier(lock_period);
        if reward_multiplier == 0 {
            return Ok(Err(StakingError::InvalidLockPeriod));
        }
        if self.positions.contains_key(&user) {
            return Ok(Err(StakingError::AlreadyStaked));
        }

        let vesting: (bool, u32, u32, u64, u32) = match vesting_periods {
            Some(periods) => {
                if periods == 0 {
                    return Err(FatalError::DivisionByZero);
                }
                (true, periods, 0, lock_period / (periods as u64), 2500)
            },
            None => (false, 0, 0, 0, 0),
        };

        if user_balance < amount {
            return Ok(Err(StakingError::InsufficientBalance));
        }

        let new_total = match pool.total_staked.checked_add(amount) {
            Some(v) => v,
            None => {
                return Err(FatalError::Overflow);
            },
        };

        let position = StakingPosition {
            user,
            amount,
            start_time: now,
            last_reward_time: now,
            reward_multiplier,
            lock_period,
            has_vesting: vesting.0,
            vesting_total_periods: vesting.1,
            vesting_current_period: vesting.2,
            vesting_period_duration: vesting.3,
            vesting_cliff_percentage: vesting.4,
        };

        proof {
            lemma_staked_sum_insert(self.positions@, user, position);
        }
        self.pool = Some(StakingPool { total_staked: new_total, ..pool });
        self.positions.insert(user, position);

        Ok(Ok(()))
    }

    /// Close the caller's position. Before lock expiry, with emergency mode
    /// off, this fails `LockPeriodNotExpired` with no effect; in emergency
    /// mode the lock is waived. On success the position is removed,
    /// `total_staked` shrinks by exactly the original principal, and the host
    /// must transfer principal plus the returned claimable rewards (the
    /// early-withdrawal fee is computed only under the guard that already
    /// returned, so it is zero here) back to the user.
    pub fn unstake(&mut self, user: u64, now: u64) -> (r: Result<
        Result<i128, StakingError>,
        FatalError,
    >)
        requires
            old(self).wf(),
            old(self).spec_initialized(),
        ensures
            final(self).wf(),
            final(self).spec_initialized(),
            r == old(self).spec_unstake_result(user, now),
            (r matches Ok(inner) && inner matches Ok(c)) ==> {
                &&& final(self).positions@ == old(self).positions@.remove(user)
                &&& final(self).pool == Some(StakingPool {
                    total_staked: (old(self).spec_pool().total_staked
                        - old(self).positions@[user].amount) as i128,
                    ..old(self).spec_pool()
                })
                &&& final(self).spec_pool().total_staked == old(self).spec_pool().total_staked - old(
                    self,
                ).positions@[user].amount
                &&& old(self).positions@[user].amount + spec_claimable_amount(
                    old(self).positions@[user],
                    old(self).spec_pool(),
                    now,
                ) <= i128::MAX
                &&& final(self).admin == old(self).admin
                &&& final(self).emergency_mode == old(self).emergency_mode
            },
            !(r matches Ok(inner) && inner matches Ok(c)) ==> *final(self) == *old(self),
    {
        let pool = self.pool.unwrap();
        let position = match self.positions.get(&user) {
            Some(p) => *p,
            None => {
                return Ok(Err(StakingError::NotStaked));
            },
        };

        let time_staked = now.saturating_sub(position.start_time);
        if time_staked < position.lock_period && !self.emergency_mode {
            return Ok(Err(StakingError::LockPeriodNotExpired));
        }

        let rewards = match Self::calculate_rewards(&position, &pool, now) {
            Ok(rc) => rc,
            Err(f) => {
                return Err(f);
            },
        };

        // Early-withdrawal fee. The guard above already rejected exactly this
        // condition, so the branch is unreachable and the fee is always zero;
        // kept because the stored fee rate is part of the pool's interface.
        let fee: i128 = if time_staked < position.lock_period && !self.emergency_mode {
            match position.amount.checked_mul(pool.emergency_withdrawal_fee as i128) {
                Some(v) => v / BPS_DENOMINATOR,
                None => {
                    return Err(FatalError::Overflow);
                },
            }
        } else {
            0
        };

        let with_rewards = match position.amount.checked_add(rewards.claimable_amount) {
            Some(v) => v,
            None => {
                return Err(FatalError::Overflow);
            },
        };
        let _total_amount = match with_rewards.checked_sub(fee) {
            Some(v) => v,
            None => {
                return Err(FatalError::Overflow);
            },
        };

        proof {
            lemma_staked_sum_remove(self.positions@, user);
            assert forall|u: u64| self.positions@.remove(user).dom().contains(u)
                implies #[trigger] self.positions@.remove(user)[u].amount >= 0 by {
                assert(self.positions@.dom().contains(u));
            }
            lemma_staked_sum_nonneg(self.positions@.remove(user));
        }
        let new_total = match pool.total_staked.checked_sub(position.amount) {
            Some(v) => v,
            None => {
                return Err(FatalError::Overflow);
            },
        };

        self.pool = Some(StakingPool { total_staked: new_total, ..pool });
        self.positions.remove(&user);

        Ok(Ok(rewards.claimable_amount))
    }

    /// Pay out the currently releasable rewards without closing the position.
    /// When nothing is claimable this returns 0 and performs no transfer and
    /// no mutation. Otherwise the host must transfer the returned amount to
    /// the user; the accrual window restarts at `now`, and the informational
    /// vesting counter advances by one (it does not feed the release math).
    pub fn claim_rewards(&mut self, user: u64, now: u64) -> (r: Result<
        Result<i128, StakingError>,
        FatalError,
    >)
        requires
            old(self).wf(),
            old(self).spec_initialized(),
        ensures
            final(self).wf(),
            final(self).spec_initialized(),
            r == old(self).spec_claim_result(user, now),
            (r matches Ok(inner) && inner matches Ok(c) && c != 0) ==> {
                &&& final(self).positions@ == old(self).positions@.insert(
                    user,
                    spec_claimed_position(old(self).positions@[user], now),
                )
                &&& final(self).pool == old(self).pool
                &&& final(self).admin == old(self).admin
                &&& final(self).emergency_mode == old(self).emergency_mode
            },
            r == Ok::<Result<i128, StakingError>, FatalError>(Ok(0)) ==> *final(self) == *old(self),
            !(r matches Ok(inner) && inner matches Ok(c) && c != 0) ==> *final(self) == *old(self),
    {
        let pool = self.pool.unwrap();
        let position = match self.positions.get(&user) {
            Some(p) => *p,
            None => {
                return Ok(Err(StakingError::NotStaked));
            },
        };

        let rewards = match Self::calculate_rewards(&position, &pool, now) {
            Ok(rc) => rc,
            Err(f) => {
                return Err(f);
            },
        };

        if rewards.claimable_amount == 0 {
            return Ok(Ok(0));
        }

        let mut updated = position;
        updated.last_reward_time = now;
        if updated.has_vesting && updated.vesting_current_period < updated.vesting_total_periods {
            updated.vesting_current_period = updated.vesting_current_period + 1;
        }

        proof {
            lemma_staked_sum_update(self.positions@, user, updated);
        }
        self.positions.insert(user, updated);

        Ok(Ok(rewards.claimable_amount))
    }

    /// Read projection of the caller's position.
    pub fn get_position(&self, user: u64) -> (r: Result<StakingPosition, StakingError>)
        ensures
            self.positions@.dom().contains(user) ==> r == Ok::<StakingPosition, StakingError>(
                self.positions@[user],
            ),
            !self.positions@.dom().contains(user) ==> r == Err::<StakingPosition, StakingError>(
                StakingError::PositionNotFound,
            ),
    {
        match self.positions.get(&user) {
            Some(p) => Ok(*p),
            None => Err(StakingError::PositionNotFound),
        }
    }

    /// Read projection of the pool configuration and totals.
    pub fn get_pool_info(&self) -> (r: StakingPool)
        requires
            self.pool is Some,
        ensures
            r == self.spec_pool(),
    {
        self.pool.unwrap()
    }

    /// Pure read of the reward snapshot the caller could claim at `now`.
    pub fn get_pending_rewards(&self, user: u64, now: u64) -> (r: Result<
        Result<RewardCalculation, StakingError>,
        FatalError,
    >)
        requires
            self.wf(),
            self.spec_initialized(),
        ensures
            r == self.spec_pending_rewards(user, now),
    {
        let pool = self.pool.unwrap();
        let position = match self.positions.get(&user) {
            Some(p) => *p,
            None => {
                return Ok(Err(StakingError::NotStaked));
            },
        };
        match Self::calculate_rewards(&position, &pool, now) {
            Ok(rc) => Ok(Ok(rc)),
            Err(f) => Err(f),
        }
    }

    /// Administrator-gated update of the reward rate and bonus multiplier;
    /// only the supplied fields change, and a negative rate is rejected with
    /// no effect.
    pub fn update_pool(
        &mut self,
        admin: u64,
        reward_rate: Option<i128>,
        bonus_multiplier: Option<u32>,
    ) -> (r: Result<(), StakingError>)
        requires
            old(self).wf(),
            old(self).spec_initialized(),
        ensures
            final(self).wf(),
            final(self).spec_initialized(),
            r == old(self).spec_update_pool_result(admin, reward_rate, bonus_multiplier),
            r is Ok ==> {
                &&& final(self).pool == Some(StakingPool {
                    reward_rate: (match reward_rate {
                        Some(v) => v,
                        None => old(self).spec_pool().reward_rate,
                    }),
                    bonus_multiplier: (match bonus_multiplier {
                        Some(v) => v,
                        None => old(self).spec_pool().bonus_multiplier,
                    }),
                    ..old(self).spec_pool()
                })
                &&& final(self).admin == old(self).admin
                &&& final(self).emergency_mode == old(self).emergency_mode
                &&& final(self).positions == old(self).positions
            },
            r is Err ==> *final(self) == *old(self),
    {
        let stored_admin = self.admin.unwrap();
        if admin != stored_admin {
            return Err(StakingError::Unauthorized);
        }

        let mut pool = self.pool.unwrap();
        match reward_rate {
            Some(new_rate) => {
                if new_rate < 0 {
                    return Err(StakingError::InvalidPoolConfig);
                }
                pool.reward_rate = new_rate;
            },
            None => {},
        }
        match bonus_multiplier {
            Some(new_multiplier) => {
                pool.bonus_multiplier = new_multiplier;
            },
            None => {},
        }
        self.pool = Some(pool);
        Ok(())
    }

    /// Administrator-gated toggle of the emergency flag, which waives lock
    /// enforcement on withdrawal. Deliberately emits no event, unlike the
    /// other administrative mutators.
    pub fn set_emergency_mode(&mut self, admin: u64, enabled: bool) -> (r: Result<
        (),
        StakingError,
    >)
        requires
            old(self).wf(),
            old(self).spec_has_admin(),
        ensures
            final(self).wf(),
            r == (if admin == old(self).spec_admin() {
                Ok::<(), StakingError>(())
            } else {
                Err::<(), StakingError>(StakingError::Unauthorized)
            }),
            r is Ok ==> final(self).emergency_mode == enabled && final(self).admin == old(self).admin
                && final(self).pool == old(self).pool && final(self).positions == old(self).positions,
            r is Err ==> *final(self) == *old(self),
    {
        let stored_admin = self.admin.unwrap();
        if admin != stored_admin {
            return Err(StakingError::Unauthorized);
        }
        self.emergency_mode = enabled;
        Ok(())
    }
}

/// The pool configuration that `initialize` installs.
pub open spec fn spec_initial_pool(
    token: u64,
    reward_rate: i128,
    bonus_multiplier: u32,
    min_stake: i128,
    max_stake: i128,
) -> StakingPool {
    StakingPool {
        token,
        total_staked: 0,
        reward_rate,
        bonus_multiplier,
        min_stake,
        max_stake,
        emergency_withdrawal_fee: 500,
    }
}

/// The position that a successful `stake` call creates: timestamps start at
/// `now`, the multiplier comes from the lock-period policy, and a requested
/// vesting schedule divides the lock period into equal periods with a fixed
/// 2500 basis-point cliff.
pub open spec fn spec_new_position(
    user: u64,
    amount: i128,
    lock_period: u64,
    vesting_periods: Option<u32>,
    now: u64,
) -> StakingPosition {
    match vesting_periods {
        Some(n) => StakingPosition {
            user,
            amount,
            start_time: now,
            last_reward_time: now,
            reward_multiplier: spec_reward_multiplier(lock_period),
            lock_period,
            has_vesting: true,
            vesting_total_periods: n,
            vesting_current_period: 0,
            vesting_period_duration: lock_period / (n as u64),
            vesting_cliff_percentage: 2500,
        },
        None => StakingPosition {
            user,
            amount,
            start_time: now,
            last_reward_time: now,
            reward_multiplier: spec_reward_multiplier(lock_period),
            lock_period,
            has_vesting: false,
            vesting_total_periods: 0,
            vesting_current_period: 0,
            vesting_period_duration: 0,
            vesting_cliff_percentage: 0,
        },
    }
}

/// The position after a nonzero claim at `now`: the accrual window restarts,
/// and the informational vesting counter advances while below the schedule
/// length.
pub open spec fn spec_claimed_position(p: StakingPosition, now: u64) -> StakingPosition {
    StakingPosition {
        last_reward_time: now,
        vesting_current_period: if p.has_vesting && p.vesting_current_period
            < p.vesting_total_periods {
            (p.vesting_current_period + 1) as u32
        } else {
            p.vesting_current_period
        },
        ..p
    }
}

} // verus!
