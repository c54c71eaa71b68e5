//! The whole ledger of one vault, and what holds of it across operations.
//!
//! An operation sees one entry and the vault. The statements here place that
//! entry among all the entries of the vault, and follow the whole ledger from
//! the pool's creation through any run of requests.

use vstd::prelude::*;
use crate::claim::{claim_result, claim_state, Claim};
use crate::deposit::{add_reward_state, AddReward};
use crate::initialize::{initialize_result, initialize_state, Initialize};
use crate::key::Key;
use crate::state::{RewardPool, UserReward, Vault};
use crate::transfer::TransferOutcome;

verus! {

/// The sum of the balances of `entries`.
pub open spec fn total_owed(entries: Seq<UserReward>) -> nat
    decreases entries.len(),
{
    if entries.len() == 0 {
        0
    } else {
        total_owed(entries.drop_last()) + entries.last().amount as nat
    }
}

/// The vault holds exactly what its entries may claim.
pub open spec fn balanced(vault: Vault, entries: Seq<UserReward>) -> bool {
    vault.total_held == total_owed(entries)
}

/// Replacing one entry changes the sum by the difference of the two balances.
pub proof fn lemma_total_after_update(entries: Seq<UserReward>, i: int, entry: UserReward)
    requires
        0 <= i < entries.len(),
    ensures
        total_owed(entries.update(i, entry)) == total_owed(entries) - entries[i].amount
            + entry.amount,
    decreases entries.len(),
{
    let updated = entries.update(i, entry);
    if i == entries.len() - 1 {
        assert(updated.drop_last() =~= entries.drop_last());
    } else {
        assert(updated.drop_last() =~= entries.drop_last().update(i, entry));
        lemma_total_after_update(entries.drop_last(), i, entry);
    }
}

/// No entry holds more than the sum of all of them.
pub proof fn lemma_entry_within_total(entries: Seq<UserReward>, i: int)
    requires
        0 <= i < entries.len(),
    ensures
        entries[i].amount <= total_owed(entries),
    decreases entries.len(),
{
    if i < entries.len() - 1 {
        lemma_entry_within_total(entries.drop_last(), i);
    }
}

/// A pool that has just been created, with no entry yet, is balanced.
pub proof fn law_new_pool_is_balanced(ctx: Initialize)
    requires
        initialize_result(ctx).is_ok(),
    ensures
        balanced(initialize_state(ctx).vault, Seq::<UserReward>::empty()),
{
}

/// Opening an entry for a further user, with nothing to claim, keeps the
/// ledger balanced.
pub proof fn law_new_entry_keeps_balance(vault: Vault, entries: Seq<UserReward>, user: Key)
    requires
        balanced(vault, entries),
    ensures
        balanced(vault, entries.push(UserReward { user, amount: 0 })),
{
    let entry = UserReward { user, amount: 0 };
    assert(entries.push(entry).drop_last() =~= entries);
}

/// A deposit on one entry of a balanced ledger leaves the ledger balanced,
/// whether it succeeds or fails, and leaves every other entry as it was.
pub proof fn law_deposit_keeps_balance(
    ctx: AddReward,
    amount: u64,
    outcome: TransferOutcome,
    entries: Seq<UserReward>,
    i: int,
)
    requires
        0 <= i < entries.len(),
        entries[i] == ctx.user_reward,
        balanced(ctx.vault, entries),
    ensures
        balanced(
            add_reward_state(ctx, amount, outcome).vault,
            entries.update(i, add_reward_state(ctx, amount, outcome).user_reward),
        ),
{
    let after = add_reward_state(ctx, amount, outcome);
    lemma_total_after_update(entries, i, after.user_reward);
}

/// A claim on one entry of a balanced ledger leaves the ledger balanced,
/// whether it succeeds or fails, and leaves every other entry as it was.
pub proof fn law_claim_keeps_balance(
    ctx: Claim,
    amount: u64,
    outcome: TransferOutcome,
    entries: Seq<UserReward>,
    i: int,
)
    requires
        0 <= i < entries.len(),
        entries[i] == ctx.user_reward,
        balanced(ctx.vault, entries),
    ensures
        balanced(
            claim_state(ctx, amount, outcome).vault,
            entries.update(i, claim_state(ctx, amount, outcome).user_reward),
        ),
{
    let after = claim_state(ctx, amount, outcome);
    lemma_total_after_update(entries, i, after.user_reward);
}

/// In a balanced ledger the vault covers every entry, so its total can record
/// every authorised claim within the entry's balance: such a claim succeeds
/// whenever the service accepts.
pub proof fn law_balanced_vault_covers_claim(
    ctx: Claim,
    amount: u64,
    entries: Seq<UserReward>,
    i: int,
)
    requires
        0 <= i < entries.len(),
        entries[i] == ctx.user_reward,
        balanced(ctx.vault, entries),
        ctx.authorized(),
        amount <= ctx.user_reward.amount,
    ensures
        ctx.vault_can_record(amount),
        ctx.order(amount).is_ok(),
        claim_result(ctx, amount, TransferOutcome::Accepted).is_ok(),
{
    lemma_entry_within_total(entries, i);
}

/// All the records of one pool: the pool itself, its vault, and the entries of
/// its users in the order in which they were opened.
pub struct Ledger {
    pub pool_key: Key,
    pub pool: RewardPool,
    pub vault: Vault,
    pub entries: Seq<UserReward>,
}

/// One request to a pool that exists. `entry` says which entry a deposit or a
/// claim is about; `outcome` is the transfer service's answer, should the
/// operation ask for a move.
pub enum Request {
    Open { user: Key },
    Deposit { entry: int, payer: Key, payer_authority: Key, amount: u64, outcome: TransferOutcome },
    Withdraw { entry: int, destination: Key, signer: Key, amount: u64, outcome: TransferOutcome },
}

impl Ledger {
    /// The ledger of a pool that `init` has just created: no entry yet.
    pub open spec fn created(init: Initialize) -> Ledger
        recommends
            initialize_result(init).is_ok(),
    {
        Ledger {
            pool_key: init.pool_key,
            pool: initialize_state(init).pool.unwrap(),
            vault: initialize_state(init).vault,
            entries: Seq::empty(),
        }
    }

    /// The records that a deposit on entry `entry` is given.
    pub open spec fn deposit_on(self, entry: int, payer: Key, payer_authority: Key) -> AddReward {
        AddReward { user_reward: self.entries[entry], payer, payer_authority, vault: self.vault }
    }

    /// The records that a claim on entry `entry` is given.
    pub open spec fn claim_on(self, entry: int, destination: Key, signer: Key) -> Claim {
        Claim {
            pool_key: self.pool_key,
            pool: self.pool,
            user_reward: self.entries[entry],
            vault: self.vault,
            destination,
            authority: signer,
        }
    }

    /// The ledger after one request. A request about an entry that does not
    /// exist changes nothing.
    pub open spec fn after(self, request: Request) -> Ledger {
        match request {
            Request::Open { user } => Ledger {
                pool_key: self.pool_key,
                pool: self.pool,
                vault: self.vault,
                entries: self.entries.push(UserReward { user, amount: 0 }),
            },
            Request::Deposit { entry, payer, payer_authority, amount, outcome } => {
                if 0 <= entry < self.entries.len() {
                    let left = add_reward_state(
                        self.deposit_on(entry, payer, payer_authority),
                        amount,
                        outcome,
                    );
                    Ledger {
                        pool_key: self.pool_key,
                        pool: self.pool,
                        vault: left.vault,
                        entries: self.entries.update(entry, left.user_reward),
                    }
                } else {
                    self
                }
            },
            Request::Withdraw { entry, destination, signer, amount, outcome } => {
                if 0 <= entry < self.entries.len() {
                    let left = claim_state(
                        self.claim_on(entry, destination, signer),
                        amount,
                        outcome,
                    );
                    Ledger {
                        pool_key: self.pool_key,
                        pool: left.pool,
                        vault: left.vault,
                        entries: self.entries.update(entry, left.user_reward),
                    }
                } else {
                    self
                }
            },
        }
    }

    /// The ledger after a run of requests, served one after the other.
    pub open spec fn after_all(self, requests: Seq<Request>) -> Ledger
        decreases requests.len(),
    {
        if requests.len() == 0 {
            self
        } else {
            self.after_all(requests.drop_last()).after(requests.last())
        }
    }
}

/// One request keeps a balanced ledger balanced and leaves the pool bound to
/// the same vault and authority.
pub proof fn law_request_keeps_balance(ledger: Ledger, request: Request)
    requires
        balanced(ledger.vault, ledger.entries),
    ensures
        balanced(ledger.after(request).vault, ledger.after(request).entries),
        ledger.after(request).pool == ledger.pool,
        ledger.after(request).pool_key == ledger.pool_key,
        ledger.after(request).vault.key == ledger.vault.key,
{
    match request {
        Request::Open { user } => {
            law_new_entry_keeps_balance(ledger.vault, ledger.entries, user);
        },
        Request::Deposit { entry, payer, payer_authority, amount, outcome } => {
            if 0 <= entry < ledger.entries.len() {
                law_deposit_keeps_balance(
                    ledger.deposit_on(entry, payer, payer_authority),
                    amount,
                    outcome,
                    ledger.entries,
                    entry,
                );
            }
        },
        Request::Withdraw { entry, destination, signer, amount, outcome } => {
            if 0 <= entry < ledger.entries.len() {
                law_claim_keeps_balance(
                    ledger.claim_on(entry, destination, signer),
                    amount,
                    outcome,
                    ledger.entries,
                    entry,
                );
            }
        },
    }
}

impl Request {
    /// Whether this request is about the entry at `entry`.
    pub open spec fn touches(self, entry: int) -> bool {
        match self {
            Request::Open { .. } => false,
            Request::Deposit { entry: e, .. } => e == entry,
            Request::Withdraw { entry: e, .. } => e == entry,
        }
    }
}

/// A request changes no entry but the one it is about, and removes none: an
/// entry stays in its place for good, also with nothing left to claim.
pub proof fn law_request_touches_one_entry(ledger: Ledger, request: Request, other: int)
    requires
        0 <= other < ledger.entries.len(),
        !request.touches(other),
    ensures
        ledger.after(request).entries.len() >= ledger.entries.len(),
        ledger.after(request).entries[other] == ledger.entries[other],
{
}

/// Claims on different entries do not stand in each other's way: in a
/// balanced ledger, what a claim on one entry answers is the same before and
/// after any request about another entry.
pub proof fn law_claim_is_independent_of_other_entries(
    ledger: Ledger,
    request: Request,
    entry: int,
    destination: Key,
    signer: Key,
    amount: u64,
    outcome: TransferOutcome,
)
    requires
        balanced(ledger.vault, ledger.entries),
        0 <= entry < ledger.entries.len(),
        !request.touches(entry),
    ensures
        claim_result(ledger.after(request).claim_on(entry, destination, signer), amount, outcome)
            == claim_result(ledger.claim_on(entry, destination, signer), amount, outcome),
{
    law_request_keeps_balance(ledger, request);
    law_request_touches_one_entry(ledger, request, entry);
    lemma_entry_within_total(ledger.entries, entry);
    lemma_entry_within_total(ledger.after(request).entries, entry);
}

/// In every state that a pool can reach from its creation, by any run of
/// requests with any answers of the transfer service, the vault holds exactly
/// the sum of the entries, and the pool is bound as it was created.
pub proof fn law_reachable_ledger_is_balanced(init: Initialize, requests: Seq<Request>)
    requires
        initialize_result(init).is_ok(),
    ensures
        balanced(
            Ledger::created(init).after_all(requests).vault,
            Ledger::created(init).after_all(requests).entries,
        ),
        Ledger::created(init).after_all(requests).pool == (RewardPool {
            vault: init.vault.key,
            authority: init.authority,
        }),
    decreases requests.len(),
{
    if requests.len() == 0 {
        law_new_pool_is_balanced(init);
    } else {
        law_reachable_ledger_is_balanced(init, requests.drop_last());
        law_request_keeps_balance(
            Ledger::created(init).after_all(requests.drop_last()),
            requests.last(),
        );
    }
}

} // verus!
