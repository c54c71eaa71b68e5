//! The three kinds of record: pool, vault and per-user ledger entry.

use vstd::prelude::*;
use crate::key::Key;
use crate::transfer::Capability;

verus! {

/// The authority anchor of one pool: the vault it owns and the principal that
/// may release funds from it. Both fields are set when the pool is created and
/// no operation changes them afterwards.
#[derive(Clone, Copy, Debug, PartialEq, Eq)]
pub struct RewardPool {
    pub vault: Key,
    pub authority: Key,
}

/// One user's claimable balance.
#[derive(Clone, Copy, Debug, PartialEq, Eq)]
pub struct UserReward {
    pub user: Key,
    pub amount: u64,
}

/// The custodial holding of the pooled asset. `owner` is the identifier that
/// controls the vault: that of the one pool it can belong to.
#[derive(Clone, Copy, Debug, PartialEq, Eq)]
pub struct Vault {
    pub key: Key,
    pub owner: Key,
    pub total_held: u64,
}

impl RewardPool {
    /// The pool's own signing capability for moves out of its vault, derived
    /// from the pool's identifier and a fixed label.
    pub fn authorize_transfer(&self, pool_key: Key) -> (cap: Capability)
        ensures
            cap == (Capability { pool: pool_key }),
    {
        Capability { pool: pool_key }
    }
}

impl UserReward {
    /// A new entry for `user`, with nothing to claim yet.
    pub fn new(user: Key) -> (entry: UserReward)
        ensures
            entry == (UserReward { user, amount: 0 }),
    {
        UserReward { user, amount: 0 }
    }
}

impl Vault {
    /// A new, empty vault under the control of `owner`.
    pub fn new(key: Key, owner: Key) -> (vault: Vault)
        ensures
            vault == (Vault { key, owner, total_held: 0 }),
    {
        Vault { key, owner, total_held: 0 }
    }

    /// A vault can be bound to a new pool at `pool_key` when that identifier
    /// controls it and it is empty.
    pub open spec fn can_back(&self, pool_key: Key) -> bool {
        self.owner == pool_key && self.total_held == 0
    }

    /// Whether this vault can be bound to a new pool at `pool_key`.
    pub fn backs(&self, pool_key: &Key) -> (r: bool)
        ensures
            r == self.can_back(*pool_key),
    {
        self.owner.same(pool_key) && self.total_held == 0
    }
}

} // verus!
