//! Crediting a user: funds move into the vault and the entry grows by the same
//! amount.

use vstd::prelude::*;
use crate::error::ErrorCode;
use crate::key::Key;
use crate::state::{UserReward, Vault};
use crate::transfer::{TransferOrder, TransferOutcome};

verus! {

/// The records that a deposit touches: the entry to credit, the holder that
/// pays with the principal that controls it, and the vault that receives.
#[derive(Clone, Copy, Debug, PartialEq, Eq)]
pub struct AddReward {
    pub user_reward: UserReward,
    pub payer: Key,
    pub payer_authority: Key,
    pub vault: Vault,
}

impl AddReward {
    /// Whether the entry can be credited with `amount` more.
    pub open spec fn fits(&self, amount: u64) -> bool {
        self.user_reward.amount + amount <= u64::MAX
    }

    /// Whether the vault's total can record `amount` more.
    pub open spec fn vault_can_record(&self, amount: u64) -> bool {
        self.vault.total_held + amount <= u64::MAX
    }

    /// The move that a deposit of `amount` asks of the transfer service, or
    /// the reason why none is asked. A move is asked whenever the entry can be
    /// credited; whether the vault can receive it is the service's to answer.
    pub open spec fn order(&self, amount: u64) -> Result<TransferOrder, ErrorCode> {
        if self.fits(amount) {
            Ok(
                TransferOrder {
                    from: self.payer,
                    to: self.vault.key,
                    authority: self.payer_authority,
                    amount,
                    capability: None,
                },
            )
        } else {
            Err(ErrorCode::OverflowError)
        }
    }

    /// Decides, before anything moves, whether a deposit of `amount` can be
    /// credited, and if so which move to ask of the transfer service: from the
    /// payer into the vault, authorised by the payer's controller.
    pub fn transfer_order(&self, amount: u64) -> (r: Result<TransferOrder, ErrorCode>)
        ensures
            r == self.order(amount),
            r.is_err() <==> !self.fits(amount),
    {
        if amount > u64::MAX - self.user_reward.amount {
            return Err(ErrorCode::OverflowError);
        }
        Ok(
            TransferOrder {
                from: self.payer,
                to: self.vault.key,
                authority: self.payer_authority,
                amount,
                capability: None,
            },
        )
    }
}

/// What [`add_reward`] answers.
pub open spec fn add_reward_result(ctx: AddReward, amount: u64, outcome: TransferOutcome) -> Result<
    (),
    ErrorCode,
> {
    match ctx.order(amount) {
        Err(e) => Err(e),
        Ok(_) => if outcome == TransferOutcome::Rejected || !ctx.vault_can_record(amount) {
            Err(ErrorCode::TransferRejected)
        } else {
            Ok(())
        },
    }
}

/// The records that [`add_reward`] leaves behind.
pub open spec fn add_reward_state(ctx: AddReward, amount: u64, outcome: TransferOutcome) -> AddReward {
    if add_reward_result(ctx, amount, outcome).is_ok() {
        AddReward {
            user_reward: UserReward {
                user: ctx.user_reward.user,
                amount: (ctx.user_reward.amount + amount) as u64,
            },
            payer: ctx.payer,
            payer_authority: ctx.payer_authority,
            vault: Vault {
                key: ctx.vault.key,
                owner: ctx.vault.owner,
                total_held: (ctx.vault.total_held + amount) as u64,
            },
        }
    } else {
        ctx
    }
}

/// Settles a deposit of `amount`. `outcome` is the transfer service's answer to
/// the order that [`AddReward::transfer_order`] gave for it; where no order was
/// given it is not looked at.
///
/// On success the vault holds `amount` more and the entry is credited with
/// `amount`. Fails with `OverflowError` exactly where crediting the entry
/// would pass the largest amount, whatever the service answered; otherwise
/// with `TransferRejected` where the service refused. A failed call changes
/// nothing; no balance ever wraps or saturates.
///
/// A service that counts as the vault does never accepts a move that takes the
/// vault's total past the largest amount. Should such an answer be handed in
/// all the same, the total cannot record it: the deposit is then refused with
/// `TransferRejected` too, and nothing changes.
pub fn add_reward(ctx: &mut AddReward, amount: u64, outcome: TransferOutcome) -> (r: Result<
    (),
    ErrorCode,
>)
    ensures
        r == add_reward_result(*old(ctx), amount, outcome),
        *final(ctx) == add_reward_state(*old(ctx), amount, outcome),
        r.is_err() ==> *final(ctx) == *old(ctx),
        r == Err::<(), ErrorCode>(ErrorCode::OverflowError) <==> !old(ctx).fits(amount),
        old(ctx).fits(amount) && outcome == TransferOutcome::Rejected ==> r == Err::<(), ErrorCode>(
            ErrorCode::TransferRejected,
        ),
        old(ctx).fits(amount) && outcome == TransferOutcome::Accepted && old(
            ctx,
        ).vault_can_record(amount) ==> r.is_ok(),
        r.is_ok() ==> final(ctx).user_reward.amount == old(ctx).user_reward.amount + amount
            && final(ctx).vault.total_held == old(ctx).vault.total_held + amount,
{
    match ctx.transfer_order(amount) {
        Err(e) => Err(e),
        Ok(_) => match outcome {
            TransferOutcome::Rejected => Err(ErrorCode::TransferRejected),
            TransferOutcome::Accepted => {
                if amount > u64::MAX - ctx.vault.total_held {
                    return Err(ErrorCode::TransferRejected);
                }
                ctx.vault.total_held = ctx.vault.total_held + amount;
                ctx.user_reward.amount = ctx.user_reward.amount + amount;
                Ok(())
            },
        },
    }
}

} // verus!
