//! Shared configuration types used across the contracts.

use vstd::prelude::*;

verus! {

/// Common administrative configuration of a deployed contract.
#[derive(Clone, Debug)]
pub struct ContractConfig {
    pub admin: String,
    pub version: u32,
    pub is_paused: bool,
}

} // verus!
