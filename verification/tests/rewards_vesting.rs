use staking::staking::{StakingContract, StakingPool, StakingPosition};

const DAY: u64 = 24 * 60 * 60;
const LOCK_30: u64 = 30 * DAY;

fn vested_setup() -> StakingContract {
    let mut s = StakingContract::new();
    s.initialize(1, 7, 1_000_000_000, 0, 100, 10_000_000)
        .expect("initialize");
    // amount 1_000_000, four vesting periods over a 30-day lock
    let r = s.stake(2, 1_000_000, LOCK_30, Some(4), 0, 2_000_000);
    assert_eq!(r, Ok(Ok(())));
    s
}

#[test]
fn multiplier_table_is_exact() {
    assert_eq!(StakingContract::get_reward_multiplier(30 * DAY), 100);
    assert_eq!(StakingContract::get_reward_multiplier(90 * DAY), 150);
    assert_eq!(StakingContract::get_reward_multiplier(180 * DAY), 200);
    assert_eq!(StakingContract::get_reward_multiplier(365 * DAY), 300);
    assert_eq!(StakingContract::get_reward_multiplier(45 * DAY), 0);
    assert_eq!(StakingContract::get_reward_multiplier(30 * DAY + 1), 0);
    assert_eq!(StakingContract::get_reward_multiplier(30 * DAY - 1), 0);
    assert_eq!(StakingContract::get_reward_multiplier(0), 0);
}

#[test]
fn vesting_schedule_is_derived_from_lock_period() {
    let s = vested_setup();
    let position = s.get_position(2).expect("position");
    assert!(position.has_vesting);
    assert_eq!(position.vesting_total_periods, 4);
    assert_eq!(position.vesting_current_period, 0);
    assert_eq!(position.vesting_period_duration, LOCK_30 / 4);
    assert_eq!(position.vesting_cliff_percentage, 2500);
}

#[test]
fn vesting_two_of_four_periods_scenario() {
    let s = vested_setup();
    let now = 2 * (LOCK_30 / 4);
    let pending = s.get_pending_rewards(2, now).expect("no fault").expect("staked");
    // 1e9 * 1_000_000 * 1_296_000 / 1e9
    let total: i128 = 1_000_000 * 1_296_000;
    assert_eq!(pending.total_rewards, total);
    // cliff 2500 bps of the total; linear release 2 of 4 periods; the larger wins
    let cliff = total * 2500 / 10_000;
    let vested = total * 2 / 4;
    assert!(cliff < vested);
    assert_eq!(pending.vesting_amount, vested);
    assert_eq!(pending.claimable_amount, vested);
}

#[test]
fn vesting_before_first_period_releases_nothing() {
    let s = vested_setup();
    let pending = s.get_pending_rewards(2, 100).expect("no fault").expect("staked");
    assert!(pending.total_rewards > 0);
    assert_eq!(pending.vesting_amount, 0);
    assert_eq!(pending.claimable_amount, 0);
}

#[test]
fn vesting_after_all_periods_releases_everything() {
    let s = vested_setup();
    let now = 5 * (LOCK_30 / 4);
    let pending = s.get_pending_rewards(2, now).expect("no fault").expect("staked");
    assert!(pending.total_rewards > 0);
    assert_eq!(pending.vesting_amount, pending.total_rewards);
}

#[test]
fn claim_advances_vesting_counter_once() {
    let mut s = vested_setup();
    let now = 2 * (LOCK_30 / 4);
    let claimed = s.claim_rewards(2, now).expect("no fault").expect("staked");
    assert!(claimed > 0);
    let position = s.get_position(2).expect("position");
    assert_eq!(position.vesting_current_period, 1);
    assert_eq!(position.last_reward_time, now);
}

#[test]
fn total_rewards_never_decrease_with_time() {
    let s = vested_setup();
    let early = s.get_pending_rewards(2, 500).expect("no fault").expect("staked");
    let late = s.get_pending_rewards(2, 1000).expect("no fault").expect("staked");
    assert!(early.total_rewards <= late.total_rewards);
    // time before the stake started accrues nothing
    let none = s.get_pending_rewards(2, 0).expect("no fault").expect("staked");
    assert_eq!(none.total_rewards, 0);
}

#[test]
fn bonus_multiplier_pays_surplus_over_base() {
    let mut s = StakingContract::new();
    s.initialize(1, 7, 1_000_000_000, 0, 100, 10_000_000)
        .expect("initialize");
    // 365-day lock carries multiplier 300: bonus is twice the base
    assert_eq!(s.stake(2, 1000, 365 * DAY, None, 0, 2_000_000), Ok(Ok(())));
    let pending = s.get_pending_rewards(2, 100).expect("no fault").expect("staked");
    assert_eq!(pending.base_rewards, 100_000);
    assert_eq!(pending.bonus_rewards, 200_000);
    assert_eq!(pending.total_rewards, 300_000);
}

#[test]
fn calculate_rewards_is_a_pure_snapshot() {
    let pool = StakingPool {
        token: 7,
        total_staked: 500,
        reward_rate: 2_000_000_000,
        bonus_multiplier: 0,
        min_stake: 1,
        max_stake: 1_000,
        emergency_withdrawal_fee: 500,
    };
    let position = StakingPosition {
        user: 2,
        amount: 500,
        start_time: 1000,
        last_reward_time: 1000,
        reward_multiplier: 150,
        lock_period: 90 * DAY,
        has_vesting: false,
        vesting_total_periods: 0,
        vesting_current_period: 0,
        vesting_period_duration: 0,
        vesting_cliff_percentage: 0,
    };
    let rc = StakingContract::calculate_rewards(&position, &pool, 1010).expect("no fault");
    // 2 units per second per unit staked, 10 seconds, 500 staked
    assert_eq!(rc.base_rewards, 10_000);
    assert_eq!(rc.bonus_rewards, 5_000);
    assert_eq!(rc.total_rewards, 15_000);
    assert_eq!(rc.vesting_amount, 15_000);
    assert_eq!(rc.claimable_amount, 15_000);
}
