//! What holds of one record through one operation, or through two in a row.

use vstd::prelude::*;
use crate::claim::{claim_result, claim_state, Claim};
use crate::deposit::{add_reward_result, add_reward_state, AddReward};
use crate::error::ErrorCode;
use crate::initialize::{initialize_result, initialize_state, Initialize};
use crate::transfer::{Capability, TransferOrder, TransferOutcome};

verus! {

/// A pool is created once: on the records that a successful creation left, a
/// second creation fails with `AlreadyInitialized` and changes nothing.
pub proof fn law_initialize_once(ctx: Initialize)
    requires
        initialize_result(ctx).is_ok(),
    ensures
        initialize_result(initialize_state(ctx)) == Err::<(), ErrorCode>(
            ErrorCode::AlreadyInitialized,
        ),
        initialize_state(initialize_state(ctx)) == initialize_state(ctx),
{
}

/// A claim by anyone but the pool's authority fails with `Unauthorized` and
/// changes nothing, whatever the amount, the balance and the service's answer.
pub proof fn law_claim_needs_authority(ctx: Claim, amount: u64, outcome: TransferOutcome)
    requires
        ctx.authority != ctx.pool.authority,
    ensures
        claim_result(ctx, amount, outcome) == Err::<(), ErrorCode>(ErrorCode::Unauthorized),
        claim_state(ctx, amount, outcome) == ctx,
{
}

/// An operation that fails leaves every record as it was.
pub proof fn law_failure_changes_nothing(
    init: Initialize,
    deposit: AddReward,
    withdrawal: Claim,
    amount: u64,
    outcome: TransferOutcome,
)
    ensures
        initialize_result(init).is_err() ==> initialize_state(init) == init,
        add_reward_result(deposit, amount, outcome).is_err() ==> add_reward_state(
            deposit,
            amount,
            outcome,
        ) == deposit,
        claim_result(withdrawal, amount, outcome).is_err() ==> claim_state(
            withdrawal,
            amount,
            outcome,
        ) == withdrawal,
{
}

/// No double spend. Two claims `first` and `second` on one entry, each within
/// its balance but together beyond it, are settled one after the other: the
/// second sees the records that the first left. Where the first succeeds, the
/// second fails with `InsufficientRewards`, and entry and vault are debited by
/// `first` alone.
pub proof fn law_no_double_spend(
    ctx: Claim,
    first: u64,
    second: u64,
    first_outcome: TransferOutcome,
    second_outcome: TransferOutcome,
)
    requires
        ctx.authorized(),
        first <= ctx.user_reward.amount,
        second <= ctx.user_reward.amount,
        first + second > ctx.user_reward.amount,
        claim_result(ctx, first, first_outcome).is_ok(),
    ensures
        claim_result(claim_state(ctx, first, first_outcome), second, second_outcome) == Err::<
            (),
            ErrorCode,
        >(ErrorCode::InsufficientRewards),
        claim_state(claim_state(ctx, first, first_outcome), second, second_outcome).user_reward.amount
            == ctx.user_reward.amount - first,
        claim_state(claim_state(ctx, first, first_outcome), second, second_outcome).vault.total_held
            == ctx.vault.total_held - first,
{
}

/// Of two such claims settled one after the other, at most one succeeds,
/// whatever the signer, the vault and the service's answers; and where the
/// signer is the authority, the vault covers the entry and the service accepts
/// both, exactly one does.
pub proof fn law_one_of_two_claims(
    ctx: Claim,
    first: u64,
    second: u64,
    first_outcome: TransferOutcome,
    second_outcome: TransferOutcome,
)
    requires
        first <= ctx.user_reward.amount,
        second <= ctx.user_reward.amount,
        first + second > ctx.user_reward.amount,
    ensures
        !(claim_result(ctx, first, first_outcome).is_ok() && claim_result(
            claim_state(ctx, first, first_outcome),
            second,
            second_outcome,
        ).is_ok()),
        ctx.authorized() && ctx.user_reward.amount <= ctx.vault.total_held && first_outcome
            == TransferOutcome::Accepted && second_outcome == TransferOutcome::Accepted
            ==> claim_result(ctx, first, first_outcome).is_ok(),
{
}

/// Round trip. A deposit of `amount` that succeeds, followed by a claim of the
/// same amount by the pool's authority on the records that the deposit left,
/// succeeds when the service accepts and gives entry and vault back as they
/// were before the deposit.
pub proof fn law_deposit_then_claim(
    deposit: AddReward,
    withdrawal: Claim,
    amount: u64,
    outcome: TransferOutcome,
)
    requires
        add_reward_result(deposit, amount, outcome).is_ok(),
        withdrawal.user_reward == add_reward_state(deposit, amount, outcome).user_reward,
        withdrawal.vault == add_reward_state(deposit, amount, outcome).vault,
        withdrawal.authorized(),
    ensures
        claim_result(withdrawal, amount, TransferOutcome::Accepted).is_ok(),
        claim_state(withdrawal, amount, TransferOutcome::Accepted).user_reward
            == deposit.user_reward,
        claim_state(withdrawal, amount, TransferOutcome::Accepted).vault == deposit.vault,
{
}

/// A deposit that would push the entry's balance past the largest amount
/// fails with `OverflowError`, whatever the service's answer, asks for no move
/// and leaves entry and vault as they were.
pub proof fn law_deposit_overflow(ctx: AddReward, amount: u64, outcome: TransferOutcome)
    requires
        ctx.user_reward.amount + amount > u64::MAX,
    ensures
        add_reward_result(ctx, amount, outcome) == Err::<(), ErrorCode>(ErrorCode::OverflowError),
        add_reward_state(ctx, amount, outcome) == ctx,
        ctx.order(amount) == Err::<TransferOrder, ErrorCode>(
            ErrorCode::OverflowError,
        ),
{
}

/// A deposit that the entry can take always asks for the one move from the
/// payer into the vault, whatever the vault holds, and never fails with
/// `OverflowError`: it fails with `TransferRejected` where the service
/// refuses, and succeeds with both sums where the service accepts and the
/// vault's total can record the amount.
pub proof fn law_deposit_within_range(ctx: AddReward, amount: u64, outcome: TransferOutcome)
    requires
        ctx.user_reward.amount + amount <= u64::MAX,
    ensures
        ctx.order(amount) == Ok::<TransferOrder, ErrorCode>(
            TransferOrder {
                from: ctx.payer,
                to: ctx.vault.key,
                authority: ctx.payer_authority,
                amount,
                capability: None,
            },
        ),
        add_reward_result(ctx, amount, outcome) != Err::<(), ErrorCode>(ErrorCode::OverflowError),
        outcome == TransferOutcome::Rejected ==> add_reward_result(ctx, amount, outcome) == Err::<
            (),
            ErrorCode,
        >(ErrorCode::TransferRejected),
        outcome == TransferOutcome::Accepted && ctx.vault.total_held + amount <= u64::MAX ==> {
            &&& add_reward_result(ctx, amount, outcome).is_ok()
            &&& add_reward_state(ctx, amount, outcome).user_reward.amount
                == ctx.user_reward.amount + amount
            &&& add_reward_state(ctx, amount, outcome).vault.total_held == ctx.vault.total_held
                + amount
        },
{
}

/// A claim by the pool's authority within the entry's balance always asks
/// for the one move from the vault to the destination, signed by the pool: it
/// fails with `TransferRejected` where the service refuses, and succeeds with
/// both differences where the service accepts and the vault's total can
/// record the amount.
pub proof fn law_claim_within_balance(ctx: Claim, amount: u64, outcome: TransferOutcome)
    requires
        ctx.authorized(),
        amount <= ctx.user_reward.amount,
    ensures
        ctx.order(amount) == Ok::<TransferOrder, ErrorCode>(
            TransferOrder {
                from: ctx.vault.key,
                to: ctx.destination,
                authority: ctx.pool_key,
                amount,
                capability: Some(Capability { pool: ctx.pool_key }),
            },
        ),
        outcome == TransferOutcome::Rejected ==> claim_result(ctx, amount, outcome) == Err::<
            (),
            ErrorCode,
        >(ErrorCode::TransferRejected),
        outcome == TransferOutcome::Accepted && amount <= ctx.vault.total_held ==> {
            &&& claim_result(ctx, amount, outcome).is_ok()
            &&& claim_state(ctx, amount, outcome).user_reward.amount == ctx.user_reward.amount
                - amount
            &&& claim_state(ctx, amount, outcome).vault.total_held == ctx.vault.total_held
                - amount
        },
{
}

/// No operation changes what a pool is bound to: a claim leaves the pool
/// record as it was.
pub proof fn law_pool_binding_is_permanent(ctx: Claim, amount: u64, outcome: TransferOutcome)
    ensures
        claim_state(ctx, amount, outcome).pool == ctx.pool,
        claim_state(ctx, amount, outcome).pool_key == ctx.pool_key,
{
}

} // verus!
