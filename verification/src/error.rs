use vstd::prelude::*;

verus! {

/// Why a request was turned down. Every kind is final for the request that
/// raised it: nothing is retried inside the ledger.
#[derive(Clone, Copy, Debug, PartialEq, Eq, Structural)]
pub enum LedgerError {
    /// The counter record already exists.
    AlreadyInitialized,
    /// The counter record does not exist yet.
    NotInitialized,
    /// The actor already holds a vote receipt.
    DuplicateVote,
    /// The choice tag names neither option.
    InvalidChoice,
    /// The actor's balance does not cover the voting fee.
    InsufficientFunds,
    /// The ledger was written to after the request was validated.
    Conflict,
    /// A slot that had to be occupied is empty.
    NotFound,
    /// A slot that had to be empty is occupied.
    AlreadyExists,
}

impl LedgerError {
    /// Whether submitting the same request again can succeed. Only a
    /// conflict is worth retrying: every other kind needs a different
    /// request.
    pub fn is_retryable(&self) -> (retry: bool)
        ensures
            retry == (*self == LedgerError::Conflict),
    {
        match self {
            LedgerError::Conflict => true,
            _ => false,
        }
    }
}

} // verus!
