//! The cross-chain bridge: an independent event-emission and nonce-tracking
//! component. Tokens locked here are minted on another chain by a relayer;
//! a payload coming back is accepted only with the next nonce in sequence,
//! so each mint can be processed at most once per user.
//!
//! The host authorizes callers, publishes the lock and mint events, and
//! performs any token movement; this state machine tracks the per-user nonce.

use vstd::prelude::*;
use std::collections::HashMap;

verus! {

broadcast use vstd::std_specs::hash::group_hash_axioms;

/// Bridge state: the administrator, the trusted validator's public key, and
/// one monotonically increasing nonce per user.
pub struct CrossChainBridge {
    pub admin: Option<u64>,
    pub validator_pubkey: Option<[u8; 32]>,
    pub nonces: HashMap<u64, i128>,
}

impl CrossChainBridge {
    /// The nonce of the last processed payload for `user`, 0 before any.
    pub open spec fn spec_nonce(self, user: u64) -> i128 {
        if self.nonces@.dom().contains(user) {
            self.nonces@[user]
        } else {
            0
        }
    }

    /// A fresh, uninitialized bridge.
    pub fn new() -> (s: Self)
        ensures
            s.admin is None,
            s.validator_pubkey is None,
            s.nonces@ == Map::<u64, i128>::empty(),
    {
        CrossChainBridge { admin: None, validator_pubkey: None, nonces: HashMap::new() }
    }

    /// Install the administrator and the trusted validator's public key.
    /// Calling this twice is a caller error: the host aborts on a bridge that
    /// already has an administrator.
    pub fn initialize(&mut self, admin: u64, validator_pubkey: [u8; 32])
        requires
            old(self).admin is None,
        ensures
            final(self).admin == Some(admin),
            final(self).validator_pubkey == Some(validator_pubkey),
            final(self).nonces == old(self).nonces,
    {
        self.admin = Some(admin);
        self.validator_pubkey = Some(validator_pubkey);
    }

    /// Accept a validator payload releasing `amount` to `user`. The payload's
    /// nonce must be exactly one past the last processed nonce; the host
    /// aborts on any other nonce and must check this before calling. The
    /// amount and signature are carried for the host's mint event and
    /// verification; the nonce record is what changes here.
    pub fn process_payload(&mut self, user: u64, _amount: i128, nonce: i128, _signature: [u8; 64])
        requires
            old(self).admin is Some,
            nonce == old(self).spec_nonce(user) + 1,
        ensures
            final(self).nonces@ == old(self).nonces@.insert(user, nonce),
            final(self).spec_nonce(user) == nonce,
            final(self).admin == old(self).admin,
            final(self).validator_pubkey == old(self).validator_pubkey,
    {
        self.nonces.insert(user, nonce);
    }

    /// The last processed nonce for `user`, 0 before any payload.
    pub fn get_nonce(&self, user: u64) -> (r: i128)
        ensures
            r == self.spec_nonce(user),
    {
        match self.nonces.get(&user) {
            Some(n) => *n,
            None => 0,
        }
    }
}

} // verus!
