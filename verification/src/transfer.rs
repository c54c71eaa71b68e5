//! What passes between the ledger and the asset transfer service.

use vstd::prelude::*;
use crate::key::Key;

verus! {

/// The fixed label from which a pool's signing capability is derived: the
/// ASCII bytes of the word `authority`.
pub open spec fn signing_label() -> Seq<u8> {
    seq![97u8, 117u8, 116u8, 104u8, 111u8, 114u8, 105u8, 116u8, 121u8]
}

/// A pool's proof of its right to spend from its own vault. It stands in for
/// an externally held secret and is issued only for a claim.
#[derive(Clone, Copy, Debug, PartialEq, Eq)]
pub struct Capability {
    pub pool: Key,
}

impl Capability {
    /// The label that the transfer service derives the pool's signature from.
    pub fn label(&self) -> (label: [u8; 9])
        ensures
            label@ == signing_label(),
    {
        let label: [u8; 9] = [97u8, 117u8, 116u8, 104u8, 111u8, 114u8, 105u8, 116u8, 121u8];
        assert(label@ =~= signing_label());
        label
    }
}

/// One move of the asset, asked of the transfer service. `authority` is the
/// principal that must control `from`; a move out of a vault carries the
/// owning pool's capability in place of an outside signature.
#[derive(Clone, Copy, Debug, PartialEq, Eq)]
pub struct TransferOrder {
    pub from: Key,
    pub to: Key,
    pub authority: Key,
    pub amount: u64,
    pub capability: Option<Capability>,
}

/// The transfer service's answer to an order.
#[derive(Clone, Copy, Debug, PartialEq, Eq, Structural)]
pub enum TransferOutcome {
    Accepted,
    Rejected,
}

} // verus!
