//! The closed set of failures that an operation can report.

use vstd::prelude::*;

verus! {

/// Why an operation was refused. A refused operation has changed nothing.
#[derive(Clone, Copy, Debug, PartialEq, Eq, Structural)]
pub enum ErrorCode {
    /// A pool already exists at the target identifier.
    AlreadyInitialized,
    /// The vault offered to a new pool holds funds or is bound elsewhere.
    InvalidVault,
    /// Crediting the amount would leave the representable range.
    OverflowError,
    /// The asset transfer service refused the move, or could not make it.
    TransferRejected,
    /// The signer is not the pool's recorded authority.
    Unauthorized,
    /// The entry holds less than the amount asked for.
    InsufficientRewards,
}

/// The five families of failure, by what the caller can do about them.
#[derive(Clone, Copy, Debug, PartialEq, Eq, Structural)]
pub enum ErrorKind {
    /// Misuse at creation: the same arguments will fail again.
    Setup,
    /// The amount is too large: reduce it or split the operation.
    Arithmetic,
    /// The signer may not do this: never retried on its own.
    Authorization,
    /// Expected and recoverable: ask for less, or wait for further deposits.
    Balance,
    /// Handed on from the transfer service: the caller has to step in.
    Transfer,
}

impl ErrorCode {
    /// The family that each failure belongs to.
    pub open spec fn kind_of(self) -> ErrorKind {
        match self {
            ErrorCode::AlreadyInitialized | ErrorCode::InvalidVault => ErrorKind::Setup,
            ErrorCode::OverflowError => ErrorKind::Arithmetic,
            ErrorCode::Unauthorized => ErrorKind::Authorization,
            ErrorCode::InsufficientRewards => ErrorKind::Balance,
            ErrorCode::TransferRejected => ErrorKind::Transfer,
        }
    }

    /// The family of this failure.
    pub fn kind(&self) -> (kind: ErrorKind)
        ensures
            kind == self.kind_of(),
    {
        match self {
            ErrorCode::AlreadyInitialized => ErrorKind::Setup,
            ErrorCode::InvalidVault => ErrorKind::Setup,
            ErrorCode::OverflowError => ErrorKind::Arithmetic,
            ErrorCode::Unauthorized => ErrorKind::Authorization,
            ErrorCode::InsufficientRewards => ErrorKind::Balance,
            ErrorCode::TransferRejected => ErrorKind::Transfer,
        }
    }
}

} // verus!
