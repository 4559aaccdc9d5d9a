use staking::shared::ContractConfig;
use staking::staking::{StakingContract, StakingPool, StakingPosition};
use staking::storage;

fn sample_pool() -> StakingPool {
    StakingPool {
        token: 9,
        total_staked: 0,
        reward_rate: 3,
        bonus_multiplier: 2,
        min_stake: 1,
        max_stake: 10,
        emergency_withdrawal_fee: 500,
    }
}

fn sample_position(user: u64) -> StakingPosition {
    StakingPosition {
        user,
        amount: 5,
        start_time: 0,
        last_reward_time: 0,
        reward_multiplier: 100,
        lock_period: 30 * 24 * 60 * 60,
        has_vesting: false,
        vesting_total_periods: 0,
        vesting_current_period: 0,
        vesting_period_duration: 0,
        vesting_cliff_percentage: 0,
    }
}

#[test]
fn admin_slot_roundtrip() {
    let mut s = StakingContract::new();
    assert!(!storage::has_admin(&s));
    storage::set_admin(&mut s, 11);
    assert!(storage::has_admin(&s));
    assert_eq!(storage::get_admin(&s), 11);
}

#[test]
fn pool_slot_roundtrip() {
    let mut s = StakingContract::new();
    storage::set_staking_pool(&mut s, &sample_pool());
    assert_eq!(storage::get_staking_pool(&s), sample_pool());
}

#[test]
fn emergency_flag_defaults_off() {
    let mut s = StakingContract::new();
    assert!(!storage::get_emergency_mode(&s));
    storage::set_emergency_mode(&mut s, true);
    assert!(storage::get_emergency_mode(&s));
}

#[test]
fn position_slots_are_per_user() {
    let mut s = StakingContract::new();
    assert!(!storage::has_staking_position(&s, 2));
    assert_eq!(storage::get_staking_position(&s, 2), None);
    storage::set_staking_position(&mut s, 2, &sample_position(2));
    storage::set_staking_position(&mut s, 3, &sample_position(3));
    assert!(storage::has_staking_position(&s, 2));
    assert_eq!(storage::get_staking_position(&s, 2), Some(sample_position(2)));
    storage::remove_staking_position(&mut s, 2);
    assert!(!storage::has_staking_position(&s, 2));
    assert!(storage::has_staking_position(&s, 3));
}

#[test]
fn contract_config_carries_its_fields() {
    let config = ContractConfig {
        admin: String::from("admin"),
        version: 1,
        is_paused: false,
    };
    let copy = config.clone();
    assert_eq!(copy.admin, "admin");
    assert_eq!(copy.version, 1);
    assert!(!copy.is_paused);
}
