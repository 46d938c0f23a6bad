use crate::error::LedgerError;
use crate::ledger::{slots_initialized, slots_voted, Ledger};
use crate::request::Actor;
use crate::record::VoteOptions;
use crate::validator::{validate_initialize, validate_vote};
use vstd::prelude::*;

verus! {

/// Initializes the ledger: creates the counter record with both tallies at
/// zero. A ledger that is initialized already stays as it is, and the
/// result is `AlreadyInitialized`.
pub fn initialize(ledger: &mut Ledger) -> (result: Result<(), LedgerError>)
    requires
        old(ledger).wf(),
    ensures
        final(ledger).wf(),
        match old(ledger)@.initialize_error() {
            Some(e) => {
                &&& result == Err::<(), LedgerError>(e)
                &&& final(ledger)@ == old(ledger)@
                &&& final(ledger).slots() == old(ledger).slots()
            },
            None => {
                &&& result is Ok
                &&& final(ledger)@ == old(ledger)@.initialized()
                &&& final(ledger).slots() == slots_initialized(
                    old(ledger).slots(),
                    old(ledger)@.version,
                )
            },
        },
{
    match validate_initialize(ledger) {
        Ok(request) => ledger.commit_initialize(&request),
        Err(e) => Err(e),
    }
}

/// Casts the vote of `user`: counts it, leaves a sealed receipt for the
/// actor and moves the voting fee from the actor's balance to the fee
/// account. A vote that is turned down changes neither ledger nor actor.
pub fn vote(ledger: &mut Ledger, user: &mut Actor, choice: VoteOptions) -> (result: Result<
    (),
    LedgerError,
>)
    requires
        old(ledger).wf(),
    ensures
        final(ledger).wf(),
        match old(ledger)@.vote_error(*old(user), choice.spec_tag()) {
            Some(e) => {
                &&& result == Err::<(), LedgerError>(e)
                &&& final(ledger)@ == old(ledger)@
                &&& final(ledger).slots() == old(ledger).slots()
                &&& *final(user) == *old(user)
            },
            None => {
                &&& result is Ok
                &&& final(ledger)@ == old(ledger)@.voted(old(user).id, choice)
                &&& final(ledger).slots() == slots_voted(
                    old(ledger).slots(),
                    old(ledger)@.version,
                    old(user).id,
                    choice,
                )
                &&& *final(user) == old(user).after_fee()
            },
        },
{
    match validate_vote(ledger, user, choice.tag()) {
        Ok(request) => ledger.commit_vote(user, &request),
        Err(e) => Err(e),
    }
}

} // verus!
