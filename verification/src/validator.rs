use crate::error::LedgerError;
use crate::ledger::Ledger;
use crate::request::{Actor, Initialize, Vote, VOTING_FEE};
use crate::record::VoteOptions;
use vstd::prelude::*;

verus! {

/// What validation says of a request to initialize, given whether the
/// counter record exists.
pub open spec fn spec_check_initialize(initialized: bool) -> Result<(), LedgerError> {
    if initialized {
        Err(LedgerError::AlreadyInitialized)
    } else {
        Ok(())
    }
}

/// What validation says of a vote, given whether the counter record exists,
/// whether the actor holds a receipt, what the actor can spend and the tag of
/// the choice. The first check that fails decides.
pub open spec fn spec_check_vote(initialized: bool, voted: bool, balance: u64, tag: u8) -> Result<
    VoteOptions,
    LedgerError,
> {
    if !initialized {
        Err(LedgerError::NotInitialized)
    } else if voted {
        Err(LedgerError::DuplicateVote)
    } else if balance < VOTING_FEE {
        Err(LedgerError::InsufficientFunds)
    } else {
        VoteOptions::spec_from_tag(tag)
    }
}

/// Validates a request to initialize. Nothing is written, so the check can
/// be made again at any time.
pub fn check_initialize(initialized: bool) -> (verdict: Result<(), LedgerError>)
    ensures
        verdict == spec_check_initialize(initialized),
{
    if initialized {
        Err(LedgerError::AlreadyInitialized)
    } else {
        Ok(())
    }
}

/// Validates a vote and reads its choice. Nothing is written, so the check
/// can be made again at any time.
pub fn check_vote(initialized: bool, voted: bool, balance: u64, tag: u8) -> (verdict: Result<
    VoteOptions,
    LedgerError,
>)
    ensures
        verdict == spec_check_vote(initialized, voted, balance, tag),
{
    if !initialized {
        Err(LedgerError::NotInitialized)
    } else if voted {
        Err(LedgerError::DuplicateVote)
    } else if balance < VOTING_FEE {
        Err(LedgerError::InsufficientFunds)
    } else {
        VoteOptions::from_tag(tag)
    }
}

/// Validates a request to initialize against a ledger. The request that
/// comes back carries the version it was validated against.
pub fn validate_initialize(ledger: &Ledger) -> (request: Result<Initialize, LedgerError>)
    requires
        ledger.wf(),
    ensures
        match ledger@.initialize_error() {
            Some(e) => request == Err::<Initialize, LedgerError>(e),
            None => request matches Ok(validated) && validated.version == ledger@.version,
        },
{
    match check_initialize(ledger.is_initialized()) {
        Ok(()) => Ok(Initialize { version: ledger.version() }),
        Err(e) => Err(e),
    }
}

/// Validates a vote of `user` against a ledger. The vote that comes back
/// carries the choice that `tag` stands for and the version it was validated
/// against.
pub fn validate_vote(ledger: &Ledger, user: &Actor, tag: u8) -> (request: Result<Vote, LedgerError>)
    requires
        ledger.wf(),
    ensures
        match ledger@.vote_error(*user, tag) {
            Some(e) => request == Err::<Vote, LedgerError>(e),
            None => {
                &&& request matches Ok(validated)
                &&& VoteOptions::spec_from_tag(tag) == Ok::<VoteOptions, LedgerError>(
                    validated.choice,
                )
                &&& validated.version == ledger@.version
            },
        },
{
    match check_vote(ledger.is_initialized(), ledger.has_voted(user.id), user.balance, tag) {
        Ok(choice) => Ok(Vote { choice, version: ledger.version() }),
        Err(e) => Err(e),
    }
}

} // verus!
