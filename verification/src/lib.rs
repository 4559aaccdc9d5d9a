//! A token-staking ledger: users lock tokens for one of four fixed durations,
//! accrue time-based rewards scaled by a duration-dependent multiplier, and
//! may have rewards released under a cliff-plus-linear vesting schedule. An
//! administrator configures the pool and can enable an emergency mode that
//! waives lock enforcement.
//!
//! The ledger is modeled as an explicit state value. The hosting environment
//! (authorization, token transfers, the clock, event publication and
//! persistence) supplies plain inputs, performs the transfers that the
//! operations decide on, and persists the state; it is specified only at this
//! boundary.

pub mod bridge;
pub mod errors;
pub mod lemmas;
pub mod rewards;
pub mod shared;
pub mod staking;
pub mod storage;
pub mod totals;
