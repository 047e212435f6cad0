//! The reasons for which an escrow operation is rejected.
//!
//! Every error is terminal for the attempted operation: the engine commits no
//! partial state change, and the caller must correct the condition and resubmit.

use vstd::prelude::*;

verus! {

/// Why an escrow operation was rejected.
#[derive(Clone, Copy, Debug, PartialEq, Eq, Structural)]
pub enum ErrorCode {
    /// The caller's identity does not match the role the operation demands.
    Unauthorized,
    /// A live bet record already exists for the given terms tuple.
    DuplicateBet,
    /// A supplied address fails to re-derive from the stored terms, or the
    /// record is already closed.
    RecordNotFound,
    /// Cancel or decline was attempted after the opponent's stake landed.
    TakerAlreadyDeposited,
    /// Settlement was attempted before both stakes were present.
    PlayersNotDeposited,
    /// A transfer was attempted for more than the vault currently holds;
    /// this signals a breach of the custody invariant.
    InsufficientVaultBalance,
}

impl ErrorCode {
    /// A short human-readable name of the error.
    pub fn describe(&self) -> (r: &'static str)
    {
        match self {
            ErrorCode::Unauthorized => "unauthorized caller",
            ErrorCode::DuplicateBet => "a live bet already exists for these terms",
            ErrorCode::RecordNotFound => "the record does not resolve",
            ErrorCode::TakerAlreadyDeposited => "the taker has already deposited",
            ErrorCode::PlayersNotDeposited => "not both players have sent their deposit",
            ErrorCode::InsufficientVaultBalance => "the vault does not hold enough",
        }
    }
}

} // verus!
