//! A custodial reward ledger: a pooled vault, one balance record per user, and
//! the three operations that may change them.
//!
//! The library decides; it moves no asset itself. An operation that needs a
//! move of the asset first yields a [`transfer::TransferOrder`] for the asset
//! transfer service and is then settled with that service's answer. Every
//! operation either commits all of its changes or leaves its records as they
//! were.

pub mod error;
pub mod key;
pub mod state;
pub mod transfer;
pub mod initialize;
pub mod deposit;
pub mod claim;
pub mod ledger;
pub mod laws;

pub use claim::{claim, Claim};
pub use deposit::{add_reward, AddReward};
pub use error::{ErrorCode, ErrorKind};
pub use initialize::{initialize, Initialize};
pub use key::Key;
pub use state::{RewardPool, UserReward, Vault};
pub use transfer::{Capability, TransferOrder, TransferOutcome};
