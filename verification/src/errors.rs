//! Error taxonomy of the staking ledger.
//!
//! Recoverable validation errors (`StakingError`) are ordinary results handed
//! back to the caller with no state change. Unrecoverable arithmetic faults
//! (`FatalError`) form a distinct channel: an operation that reports one must
//! be aborted wholesale by the host, with no partial state change and no
//! transfer.

use vstd::prelude::*;

verus! {

/// Recoverable errors of the staking operations.
#[derive(Copy, Clone, Debug, PartialEq, Eq, PartialOrd, Ord, Structural)]
pub enum StakingError {
    NotInitialized,
    Unauthorized,
    InsufficientBalance,
    InvalidAmount,
    InvalidLockPeriod,
    PositionNotFound,
    AlreadyStaked,
    NotStaked,
    LockPeriodNotExpired,
    EmergencyMode,
    InvalidPoolConfig,
    RewardCalculationFailed,
}

/// Unrecoverable arithmetic faults in the accounting steps. Silent wrapping or
/// saturation would corrupt the pool invariants, so any such condition aborts
/// the whole operation instead of being folded into `StakingError`.
#[derive(Copy, Clone, Debug, PartialEq, Eq, Structural)]
pub enum FatalError {
    Overflow,
    DivisionByZero,
}

} // verus!
