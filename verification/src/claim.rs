//! Releasing funds: the pool's authority debits an entry and funds leave the
//! vault for a destination.

use vstd::prelude::*;
use crate::error::ErrorCode;
use crate::key::Key;
use crate::state::{RewardPool, UserReward, Vault};
use crate::transfer::{Capability, TransferOrder, TransferOutcome};

verus! {

/// The records that a claim touches. `pool` is the record stored at
/// `pool_key`; `authority` is the principal that signed the request.
#[derive(Clone, Copy, Debug, PartialEq, Eq)]
pub struct Claim {
    pub pool_key: Key,
    pub pool: RewardPool,
    pub user_reward: UserReward,
    pub vault: Vault,
    pub destination: Key,
    pub authority: Key,
}

impl Claim {
    /// The signer is the pool's recorded authority. Nothing else gates a
    /// claim: the entry's user is not consulted.
    pub open spec fn authorized(&self) -> bool {
        self.authority == self.pool.authority
    }

    /// Whether the vault's total can record `amount` less.
    pub open spec fn vault_can_record(&self, amount: u64) -> bool {
        amount <= self.vault.total_held
    }

    /// The move that a claim of `amount` asks of the transfer service, or the
    /// reason why none is asked. The checks come in this order: the signer,
    /// then the entry's balance. A move is asked whenever both pass; whether
    /// the vault can make it is the service's to answer.
    pub open spec fn order(&self, amount: u64) -> Result<TransferOrder, ErrorCode> {
        if !self.authorized() {
            Err(ErrorCode::Unauthorized)
        } else if self.user_reward.amount < amount {
            Err(ErrorCode::InsufficientRewards)
        } else {
            Ok(
                TransferOrder {
                    from: self.vault.key,
                    to: self.destination,
                    authority: self.pool_key,
                    amount,
                    capability: Some(Capability { pool: self.pool_key }),
                },
            )
        }
    }

    /// Decides, before anything moves, whether `amount` may be claimed, and if
    /// so which move to ask of the transfer service: out of the vault to the
    /// destination, authorised by the pool itself through its capability.
    pub fn transfer_order(&self, amount: u64) -> (r: Result<TransferOrder, ErrorCode>)
        ensures
            r == self.order(amount),
            r.is_ok() <==> self.authorized() && amount <= self.user_reward.amount,
    {
        if !self.authority.same(&self.pool.authority) {
            return Err(ErrorCode::Unauthorized);
        }
        if self.user_reward.amount < amount {
            return Err(ErrorCode::InsufficientRewards);
        }
        Ok(
            TransferOrder {
                from: self.vault.key,
                to: self.destination,
                authority: self.pool_key,
                amount,
                capability: Some(self.pool.authorize_transfer(self.pool_key)),
            },
        )
    }
}

/// What [`claim`] answers.
pub open spec fn claim_result(ctx: Claim, amount: u64, outcome: TransferOutcome) -> Result<
    (),
    ErrorCode,
> {
    match ctx.order(amount) {
        Err(e) => Err(e),
        Ok(_) => if outcome == TransferOutcome::Rejected || !ctx.vault_can_record(amount) {
            Err(ErrorCode::TransferRejected)
        } else {
            Ok(())
        },
    }
}

/// The records that [`claim`] leaves behind.
pub open spec fn claim_state(ctx: Claim, amount: u64, outcome: TransferOutcome) -> Claim {
    if claim_result(ctx, amount, outcome).is_ok() {
        Claim {
            pool_key: ctx.pool_key,
            pool: ctx.pool,
            user_reward: UserReward {
                user: ctx.user_reward.user,
                amount: (ctx.user_reward.amount - amount) as u64,
            },
            vault: Vault {
                key: ctx.vault.key,
                owner: ctx.vault.owner,
                total_held: (ctx.vault.total_held - amount) as u64,
            },
            destination: ctx.destination,
            authority: ctx.authority,
        }
    } else {
        ctx
    }
}

/// Settles a claim of `amount`. `outcome` is the transfer service's answer to
/// the order that [`Claim::transfer_order`] gave for it; where no order was
/// given it is not looked at.
///
/// On success the vault holds `amount` less and the entry is debited by
/// `amount`. Fails with `Unauthorized` where the signer is not the pool's
/// authority, whatever the balance; otherwise with `InsufficientRewards` where
/// the entry holds less than `amount`; otherwise with `TransferRejected` where
/// the service refused. A failed call changes nothing.
///
/// A service that counts as the vault does never accepts a move of more than
/// the vault holds, and a vault that holds what its entries may claim always
/// covers an entry. Should such an answer be handed in all the same, the total
/// cannot record it: the claim is then refused with `TransferRejected` too,
/// and nothing changes.
pub fn claim(ctx: &mut Claim, amount: u64, outcome: TransferOutcome) -> (r: Result<(), ErrorCode>)
    ensures
        r == claim_result(*old(ctx), amount, outcome),
        *final(ctx) == claim_state(*old(ctx), amount, outcome),
        r.is_err() ==> *final(ctx) == *old(ctx),
        r == Err::<(), ErrorCode>(ErrorCode::Unauthorized) <==> !old(ctx).authorized(),
        r == Err::<(), ErrorCode>(ErrorCode::InsufficientRewards) <==> old(ctx).authorized() && old(
            ctx,
        ).user_reward.amount < amount,
        old(ctx).authorized() && amount <= old(ctx).user_reward.amount && outcome
            == TransferOutcome::Accepted && old(ctx).vault_can_record(amount) ==> r.is_ok(),
        r.is_ok() ==> final(ctx).user_reward.amount == old(ctx).user_reward.amount - amount
            && final(ctx).vault.total_held == old(ctx).vault.total_held - amount,
{
    match ctx.transfer_order(amount) {
        Err(e) => Err(e),
        Ok(_) => match outcome {
            TransferOutcome::Rejected => Err(ErrorCode::TransferRejected),
            TransferOutcome::Accepted => {
                if ctx.vault.total_held < amount {
                    return Err(ErrorCode::TransferRejected);
                }
                ctx.vault.total_held = ctx.vault.total_held - amount;
                ctx.user_reward.amount = ctx.user_reward.amount - amount;
                Ok(())
            },
        },
    }
}

} // verus!
