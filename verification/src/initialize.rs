//! Creating a pool.

use vstd::prelude::*;
use crate::error::ErrorCode;
use crate::key::Key;
use crate::state::{RewardPool, Vault};

verus! {

/// The records that creating a pool touches. `pool` is the record stored at
/// `pool_key`: `None` until a pool is created there.
#[derive(Clone, Copy, Debug, PartialEq, Eq)]
pub struct Initialize {
    pub pool_key: Key,
    pub pool: Option<RewardPool>,
    pub payer: Key,
    pub vault: Vault,
    pub authority: Key,
}

/// What [`initialize`] answers on `ctx`.
pub open spec fn initialize_result(ctx: Initialize) -> Result<(), ErrorCode> {
    if ctx.pool.is_some() {
        Err(ErrorCode::AlreadyInitialized)
    } else if !ctx.vault.can_back(ctx.pool_key) {
        Err(ErrorCode::InvalidVault)
    } else {
        Ok(())
    }
}

/// The records that [`initialize`] leaves behind on `ctx`.
pub open spec fn initialize_state(ctx: Initialize) -> Initialize {
    if initialize_result(ctx).is_ok() {
        Initialize {
            pool_key: ctx.pool_key,
            pool: Some(RewardPool { vault: ctx.vault.key, authority: ctx.authority }),
            payer: ctx.payer,
            vault: ctx.vault,
            authority: ctx.authority,
        }
    } else {
        ctx
    }
}

/// Creates the pool at `ctx.pool_key`, bound for good to `ctx.vault` and
/// `ctx.authority`. No value moves, and nothing but the pool record changes.
///
/// Fails with `AlreadyInitialized` where a pool exists at that identifier;
/// otherwise with `InvalidVault` where the vault holds funds or is controlled
/// by another identifier than the pool's. A failed call changes nothing.
pub fn initialize(ctx: &mut Initialize) -> (r: Result<(), ErrorCode>)
    ensures
        r == initialize_result(*old(ctx)),
        *final(ctx) == initialize_state(*old(ctx)),
        r.is_err() ==> *final(ctx) == *old(ctx),
        r.is_ok() ==> final(ctx).pool == Some(
            RewardPool { vault: old(ctx).vault.key, authority: old(ctx).authority },
        ) && final(ctx).vault == old(ctx).vault && final(ctx).vault.total_held == 0,
{
    if ctx.pool.is_some() {
        return Err(ErrorCode::AlreadyInitialized);
    }
    if !ctx.vault.backs(&ctx.pool_key) {
        return Err(ErrorCode::InvalidVault);
    }
    ctx.pool = Some(RewardPool { vault: ctx.vault.key, authority: ctx.authority });
    Ok(())
}

} // verus!
