use crate::error::LedgerError;
use crate::model::{
    lemma_genesis_valid, lemma_initialize_keeps_valid, lemma_vote_keeps_valid, LedgerState, Tally,
};
use crate::record::VoteOptions;
use crate::request::{Actor, Vote, VOTING_FEE};
use vstd::prelude::*;

verus! {

/// The ledger after one call of `initialize`, accepted or not.
pub open spec fn after_initialize(s: LedgerState) -> LedgerState {
    if s.initialize_error() is None {
        s.initialized()
    } else {
        s
    }
}

/// The ledger after one call of `vote`, accepted or not.
pub open spec fn after_vote(s: LedgerState, user: Actor, choice: VoteOptions) -> LedgerState {
    if s.vote_error(user, choice.spec_tag()) is None {
        s.voted(user.id, choice)
    } else {
        s
    }
}

/// The ledger after a sequence of calls of `vote`, in order.
pub open spec fn after_votes(s: LedgerState, calls: Seq<(Actor, VoteOptions)>) -> LedgerState
    decreases calls.len(),
{
    if calls.len() == 0 {
        s
    } else {
        after_vote(after_votes(s, calls.drop_last()), calls.last().0, calls.last().1)
    }
}

/// How many calls of a sequence of calls of `vote` are accepted.
pub open spec fn accepted_votes(s: LedgerState, calls: Seq<(Actor, VoteOptions)>) -> nat
    decreases calls.len(),
{
    if calls.len() == 0 {
        0
    } else {
        let before = after_votes(s, calls.drop_last());
        let last: nat = if before.vote_error(calls.last().0, calls.last().1.spec_tag()) is None {
            1
        } else {
            0
        };
        accepted_votes(s, calls.drop_last()) + last
    }
}

/// Whatever is voted on an initialized ledger, in whatever order, the two
/// tallies together grow by the number of accepted votes, and so does the
/// number of receipts; the fee account grows by one fee for each of them.
/// No vote is lost and none counts twice.
pub proof fn lemma_accepted_votes_are_counted(s: LedgerState, calls: Seq<(Actor, VoteOptions)>)
    requires
        s.valid(),
        s.tally is Some,
    ensures
        after_votes(s, calls).valid(),
        after_votes(s, calls).tally is Some,
        after_votes(s, calls).tally->0.total() == s.tally->0.total() + accepted_votes(s, calls),
        after_votes(s, calls).receipts.len() == s.receipts.len() + accepted_votes(s, calls),
        after_votes(s, calls).fees == s.fees + VOTING_FEE * accepted_votes(s, calls),
    decreases calls.len(),
{
    if calls.len() > 0 {
        let before = after_votes(s, calls.drop_last());
        lemma_accepted_votes_are_counted(s, calls.drop_last());
        let user = calls.last().0;
        let choice = calls.last().1;
        if before.vote_error(user, choice.spec_tag()) is None {
            lemma_vote_keeps_valid(before, user, choice);
            let n = accepted_votes(s, calls.drop_last());
            assert(VOTING_FEE * (n + 1) == VOTING_FEE * n + VOTING_FEE) by (nonlinear_arith);
        }
    }
}

/// On a ledger that was just initialized, the two tallies together are the
/// number of accepted votes.
pub proof fn lemma_tally_is_number_of_accepted_votes(calls: Seq<(Actor, VoteOptions)>)
    ensures
        ({
            let start = LedgerState::genesis().initialized();
            after_votes(start, calls).tally->0.total() == accepted_votes(start, calls)
        }),
{
    let start = LedgerState::genesis().initialized();
    lemma_genesis_valid();
    lemma_initialize_keeps_valid(LedgerState::genesis());
    lemma_accepted_votes_are_counted(start, calls);
}

/// Whatever the ledger, a call of `initialize` that follows a call of
/// `initialize` is turned down as `AlreadyInitialized` and leaves the ledger,
/// its tallies among the rest, as the first call left it.
pub proof fn lemma_initialize_twice(s: LedgerState)
    ensures
        after_initialize(s).initialize_error() == Some(LedgerError::AlreadyInitialized),
        after_initialize(after_initialize(s)) == after_initialize(s),
        s.initialize_error() is None ==> after_initialize(s).tally == Some(
            Tally { doors: 0, wheels: 0 },
        ),
{
}

/// On an initialized ledger, the first vote of an actor who can pay the fee
/// is accepted: it raises the tally of its choice by one and leaves the
/// other tally alone. Whatever the same actor votes after that, with
/// whatever balance and whatever tag, is turned down as `DuplicateVote` and
/// leaves the ledger as it was.
pub proof fn lemma_one_vote_per_actor(
    s: LedgerState,
    user: Actor,
    choice: VoteOptions,
    again: Actor,
    tag: u8,
)
    requires
        s.tally is Some,
        !s.receipts.contains_key(user.id),
        user.balance >= VOTING_FEE,
        again.id == user.id,
    ensures
        s.vote_error(user, choice.spec_tag()) is None,
        s.voted(user.id, choice).tally->0.of(choice) == s.tally->0.of(choice) + 1,
        forall|other: VoteOptions|
            other != choice ==> #[trigger] s.voted(user.id, choice).tally->0.of(other)
                == s.tally->0.of(other),
        s.voted(user.id, choice).vote_error(again, tag) == Some(LedgerError::DuplicateVote),
        forall|second: VoteOptions| #[trigger]
            after_vote(s.voted(user.id, choice), again, second) == s.voted(user.id, choice),
{
}

/// A vote on a ledger that is not initialized is turned down as
/// `NotInitialized`, whoever votes for whatever.
pub proof fn lemma_vote_needs_initialized_ledger(s: LedgerState, user: Actor, tag: u8)
    requires
        s.tally is None,
    ensures
        s.vote_error(user, tag) == Some(LedgerError::NotInitialized),
{
}

/// On an initialized ledger, the vote of an actor who has not voted and
/// cannot pay the fee is turned down as `InsufficientFunds`, and the ledger
/// stays as it was.
pub proof fn lemma_vote_needs_funds(s: LedgerState, user: Actor, choice: VoteOptions)
    requires
        s.tally is Some,
        !s.receipts.contains_key(user.id),
        user.balance < VOTING_FEE,
    ensures
        s.vote_error(user, choice.spec_tag()) == Some(LedgerError::InsufficientFunds),
        after_vote(s, user, choice) == s,
{
}

/// An accepted vote moves the fee and makes none: what the actor pays is
/// the fee, and it is what the fee account takes in.
pub proof fn lemma_fee_moves_to_fee_account(s: LedgerState, user: Actor, choice: VoteOptions)
    requires
        s.vote_error(user, choice.spec_tag()) is None,
    ensures
        user.after_fee().id == user.id,
        user.after_fee().balance + VOTING_FEE == user.balance,
        s.voted(user.id, choice).fees == s.fees + VOTING_FEE,
        user.after_fee().balance + s.voted(user.id, choice).fees == user.balance + s.fees,
{
}

/// Two actors who can both vote can vote in either order: each is accepted
/// after the other, and both orders end in the same ledger, with both votes
/// counted once and both receipts present.
pub proof fn lemma_votes_of_two_actors_commute(
    s: LedgerState,
    a: Actor,
    choice_a: VoteOptions,
    b: Actor,
    choice_b: VoteOptions,
)
    requires
        a.id != b.id,
        s.vote_error(a, choice_a.spec_tag()) is None,
        s.vote_error(b, choice_b.spec_tag()) is None,
    ensures
        s.voted(a.id, choice_a).vote_error(b, choice_b.spec_tag()) is None,
        s.voted(b.id, choice_b).vote_error(a, choice_a.spec_tag()) is None,
        s.voted(a.id, choice_a).voted(b.id, choice_b) == s.voted(b.id, choice_b).voted(
            a.id,
            choice_a,
        ),
        s.voted(a.id, choice_a).voted(b.id, choice_b).tally->0.total() == s.tally->0.total() + 2,
        s.voted(a.id, choice_a).voted(b.id, choice_b).receipts.contains_key(a.id),
        s.voted(a.id, choice_a).voted(b.id, choice_b).receipts.contains_key(b.id),
{
    let ab = s.voted(a.id, choice_a).voted(b.id, choice_b);
    let ba = s.voted(b.id, choice_b).voted(a.id, choice_a);
    assert(ab.receipts =~= ba.receipts);
}

/// A validated vote commits as long as nothing is written in between. Once
/// something was written, it is turned down: as a `DuplicateVote` if the
/// actor has a receipt by then, and as a `Conflict`, which is worth
/// validating again, if all that is wrong is the version.
pub proof fn lemma_commit_after_validation(
    s: LedgerState,
    later: LedgerState,
    user: Actor,
    request: Vote,
)
    requires
        s.vote_error(user, request.choice.spec_tag()) is None,
        request.version == s.version,
        later.tally is Some,
        later.version != s.version,
    ensures
        s.commit_vote_error(user, request) is None,
        later.receipts.contains_key(user.id) ==> later.commit_vote_error(user, request) == Some(
            LedgerError::DuplicateVote,
        ),
        !later.receipts.contains_key(user.id) ==> later.commit_vote_error(user, request) == Some(
            LedgerError::Conflict,
        ),
{
}

/// No tally ever goes down, a ledger that is initialized stays so, and a
/// receipt, once there, stays as it is: whoever votes for whatever, and
/// however often the ledger is initialized again.
pub proof fn lemma_nothing_is_taken_back(
    s: LedgerState,
    user: Actor,
    choice: VoteOptions,
    actor: u64,
)
    requires
        s.tally is Some,
    ensures
        after_initialize(s) == s,
        after_vote(s, user, choice).tally is Some,
        after_vote(s, user, choice).tally->0.doors >= s.tally->0.doors,
        after_vote(s, user, choice).tally->0.wheels >= s.tally->0.wheels,
        s.receipts.contains_key(actor) ==> after_vote(s, user, choice).receipts.contains_key(actor)
            && after_vote(s, user, choice).receipts[actor] == s.receipts[actor],
{
}

} // verus!
