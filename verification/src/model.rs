use crate::error::LedgerError;
use crate::record::{UserVote, VoteOptions, VotesCounter};
use crate::request::{Actor, Initialize, Vote, VOTING_FEE};
use vstd::prelude::*;

verus! {

/// The two tallies as numbers.
pub struct Tally {
    pub doors: nat,
    pub wheels: nat,
}

impl Tally {
    pub open spec fn total(self) -> nat {
        self.doors + self.wheels
    }

    pub open spec fn of(self, choice: VoteOptions) -> nat {
        match choice {
            VoteOptions::Doors => self.doors,
            VoteOptions::Wheels => self.wheels,
        }
    }

    /// One more vote for `choice`; the other tally as it was.
    pub open spec fn with_vote(self, choice: VoteOptions) -> Tally {
        match choice {
            VoteOptions::Doors => Tally { doors: self.doors + 1, wheels: self.wheels },
            VoteOptions::Wheels => Tally { doors: self.doors, wheels: self.wheels + 1 },
        }
    }
}

impl View for VotesCounter {
    type V = Tally;

    open spec fn view(&self) -> Tally {
        Tally { doors: self.doors as nat, wheels: self.wheels as nat }
    }
}

/// What a ledger is, apart from how it is stored.
pub struct LedgerState {
    /// The counter record; `None` until the ledger is initialized.
    pub tally: Option<Tally>,
    /// The receipt of every actor that has voted.
    pub receipts: Map<u64, UserVote>,
    /// What the fee account has taken in.
    pub fees: nat,
    /// The number of record writes so far.
    pub version: nat,
}

impl LedgerState {
    /// The ledger before anything has happened.
    pub open spec fn genesis() -> LedgerState {
        LedgerState { tally: None, receipts: Map::empty(), fees: 0, version: 0 }
    }

    /// The actors whose receipt records `choice`.
    pub open spec fn voters_for(self, choice: VoteOptions) -> Set<u64> {
        self.receipts.dom().filter(|actor: u64| self.receipts[actor].choice == choice)
    }

    /// What holds of every ledger that initializing and voting can reach.
    /// Before initialization the ledger is empty. After it, each tally is
    /// the number of receipts for its option, every vote has paid the fee
    /// once, and the version has counted the write of the counter record
    /// and two writes per vote. Every receipt is sealed.
    pub open spec fn valid(self) -> bool {
        &&& self.receipts.dom().finite()
        &&& forall|actor: u64| #[trigger]
            self.receipts.contains_key(actor) ==> self.receipts[actor].sealed
        &&& match self.tally {
            None => self.receipts == Map::<u64, UserVote>::empty() && self.fees == 0
                && self.version == 0,
            Some(tally) => {
                &&& tally.doors == self.voters_for(VoteOptions::Doors).len()
                &&& tally.wheels == self.voters_for(VoteOptions::Wheels).len()
                &&& tally.total() == self.receipts.len()
                &&& self.fees == VOTING_FEE * tally.total()
                &&& self.version == 1 + 2 * tally.total()
            },
        }
    }

    /// Why a request to initialize is turned down, if it is.
    pub open spec fn initialize_error(self) -> Option<LedgerError> {
        if self.tally is Some {
            Some(LedgerError::AlreadyInitialized)
        } else {
            None
        }
    }

    /// The ledger after it was initialized: both tallies at zero, one write.
    pub open spec fn initialized(self) -> LedgerState {
        LedgerState {
            tally: Some(Tally { doors: 0, wheels: 0 }),
            receipts: self.receipts,
            fees: self.fees,
            version: self.version + 1,
        }
    }

    /// Why a vote is turned down, if it is. The checks come in this order:
    /// the ledger must be initialized, the actor must not have voted, the
    /// balance must cover the fee, and the tag must name an option.
    pub open spec fn vote_error(self, user: Actor, tag: u8) -> Option<LedgerError> {
        if self.tally is None {
            Some(LedgerError::NotInitialized)
        } else if self.receipts.contains_key(user.id) {
            Some(LedgerError::DuplicateVote)
        } else if user.balance < VOTING_FEE {
            Some(LedgerError::InsufficientFunds)
        } else if tag > 1 {
            Some(LedgerError::InvalidChoice)
        } else {
            None
        }
    }

    /// Why a validated request to initialize is not committed, if it is
    /// not: what validation says of it now; and if that is nothing,
    /// `Conflict` if the ledger was written to since the request was
    /// validated.
    pub open spec fn commit_initialize_error(self, request: Initialize) -> Option<LedgerError> {
        if self.initialize_error() is Some {
            self.initialize_error()
        } else if request.version != self.version {
            Some(LedgerError::Conflict)
        } else {
            None
        }
    }

    /// Why a validated vote is not committed, if it is not: what validation
    /// says now of the actor as it stands; and if that is nothing,
    /// `Conflict` if the ledger was written to since the vote was
    /// validated. So a vote that is committed a second time is a
    /// `DuplicateVote`, and a `Conflict` is worth validating again.
    pub open spec fn commit_vote_error(self, user: Actor, request: Vote) -> Option<LedgerError> {
        if self.vote_error(user, request.choice.spec_tag()) is Some {
            self.vote_error(user, request.choice.spec_tag())
        } else if request.version != self.version {
            Some(LedgerError::Conflict)
        } else {
            None
        }
    }

    /// The ledger after `actor` voted for `choice`: the tally of `choice`
    /// one higher, a sealed receipt for `actor`, the fee taken in, and two
    /// writes, one to the counter and one for the receipt.
    pub open spec fn voted(self, actor: u64, choice: VoteOptions) -> LedgerState
        recommends
            self.tally is Some,
    {
        LedgerState {
            tally: Some(self.tally->0.with_vote(choice)),
            receipts: self.receipts.insert(actor, UserVote { choice, sealed: true }),
            fees: self.fees + VOTING_FEE as nat,
            version: self.version + 2,
        }
    }
}

/// The ledger before anything has happened is valid.
pub proof fn lemma_genesis_valid()
    ensures
        LedgerState::genesis().valid(),
{
}

/// Initializing an uninitialized valid ledger leaves it valid.
pub proof fn lemma_initialize_keeps_valid(s: LedgerState)
    requires
        s.valid(),
        s.initialize_error() is None,
    ensures
        s.initialized().valid(),
{
    let t = s.initialized();
    assert(t.voters_for(VoteOptions::Doors) =~= Set::<u64>::empty());
    assert(t.voters_for(VoteOptions::Wheels) =~= Set::<u64>::empty());
}

/// An accepted vote leaves a valid ledger valid.
pub proof fn lemma_vote_keeps_valid(s: LedgerState, user: Actor, choice: VoteOptions)
    requires
        s.valid(),
        s.vote_error(user, choice.spec_tag()) is None,
    ensures
        s.voted(user.id, choice).valid(),
{
    let t = s.voted(user.id, choice);
    let tally = s.tally->0;
    let other = match choice {
        VoteOptions::Doors => VoteOptions::Wheels,
        VoteOptions::Wheels => VoteOptions::Doors,
    };
    s.receipts.dom().lemma_len_filter(|actor: u64| s.receipts[actor].choice == choice);
    s.receipts.dom().lemma_len_filter(|actor: u64| s.receipts[actor].choice == other);
    assert(t.voters_for(choice) =~= s.voters_for(choice).insert(user.id));
    assert(t.voters_for(other) =~= s.voters_for(other));
    assert(VOTING_FEE * (tally.total() + 1) == VOTING_FEE * tally.total() + VOTING_FEE)
        by (nonlinear_arith);
}

} // verus!
