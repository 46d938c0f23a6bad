use crate::error::LedgerError;
use crate::model::{lemma_initialize_keeps_valid, lemma_vote_keeps_valid, LedgerState};
use crate::request::{Actor, Initialize, Vote, VOTING_FEE};
use crate::record::{UserVote, VoteOptions, VotesCounter};
use crate::store::{
    derive_key, spec_derive_key, AccountStore, Owner, Record, Slot, COUNTER_NAMESPACE,
    RECEIPT_NAMESPACE,
};
use crate::validator::{check_initialize, check_vote};
use vstd::prelude::*;

verus! {

/// The key of the counter record.
pub open spec fn counter_key() -> u128 {
    spec_derive_key(COUNTER_NAMESPACE, 0)
}

/// The key of the receipt of `actor`.
pub open spec fn receipt_key(actor: u64) -> u128 {
    spec_derive_key(RECEIPT_NAMESPACE, actor)
}

/// What it means for the slots of a store to hold a ledger: the counter
/// record sits under the counter key and belongs to the ledger; the receipt
/// of each actor that has voted sits under that actor's receipt key and
/// belongs to that actor; no other slot is occupied.
pub open spec fn represents(slots: Map<u128, Slot>, state: LedgerState) -> bool {
    &&& slots.contains_key(counter_key()) <==> state.tally is Some
    &&& slots.contains_key(counter_key()) ==> {
        &&& slots[counter_key()].owner == Owner::Ledger
        &&& slots[counter_key()].record matches Record::Counter(counter)
        &&& counter@ == state.tally->0
    }
    &&& forall|actor: u64|
        #![trigger slots.contains_key(receipt_key(actor))]
        #![trigger state.receipts.contains_key(actor)]
        slots.contains_key(receipt_key(actor)) <==> state.receipts.contains_key(actor)
    &&& forall|actor: u64| #[trigger]
        slots.contains_key(receipt_key(actor)) ==> {
            &&& slots[receipt_key(actor)].owner == Owner::Actor(actor)
            &&& slots[receipt_key(actor)].record == Record::Receipt(state.receipts[actor])
        }
    &&& forall|key: u128| #[trigger]
        slots.contains_key(key) ==> key == counter_key() || key == receipt_key(
            (key % 0x1_0000_0000_0000_0000) as u64,
        )
}

/// The slots once the ledger was initialized at `version`: the counter
/// record, written next, belongs to the ledger and stands at zero.
pub open spec fn slots_initialized(slots: Map<u128, Slot>, version: nat) -> Map<u128, Slot> {
    slots.insert(
        counter_key(),
        Slot {
            owner: Owner::Ledger,
            version: (version + 1) as u128,
            record: Record::Counter(VotesCounter { doors: 0, wheels: 0 }),
        },
    )
}

/// The slots once `actor` voted for `choice` at `version`: the counter
/// record is written first and the receipt, which belongs to the actor,
/// second.
pub open spec fn slots_voted(
    slots: Map<u128, Slot>,
    version: nat,
    actor: u64,
    choice: VoteOptions,
) -> Map<u128, Slot> {
    slots.insert(
        counter_key(),
        Slot {
            owner: Owner::Ledger,
            version: (version + 1) as u128,
            record: counted(slots[counter_key()].record, choice),
        },
    ).insert(
        receipt_key(actor),
        Slot {
            owner: Owner::Actor(actor),
            version: (version + 2) as u128,
            record: Record::Receipt(UserVote { choice, sealed: true }),
        },
    )
}

/// `record` with one more vote for `choice`, if it is a counter.
pub open spec fn counted(record: Record, choice: VoteOptions) -> Record {
    match record {
        Record::Counter(counter) => Record::Counter(counter.with_vote(choice)),
        Record::Receipt(_) => record,
    }
}

spec fn counts(record: Record, choice: VoteOptions) -> bool {
    record matches Record::Counter(counter) && counter.tally(choice) < u64::MAX
}

/// The ledger: an account store that holds the counter record and the vote
/// receipts, and the fee account.
pub struct Ledger {
    store: AccountStore,
    fees: u128,
}

impl View for Ledger {
    type V = LedgerState;

    closed spec fn view(&self) -> LedgerState {
        let slots = self.store@;
        LedgerState {
            tally: if slots.contains_key(counter_key()) {
                match slots[counter_key()].record {
                    Record::Counter(counter) => Some(counter@),
                    Record::Receipt(_) => None,
                }
            } else {
                None
            },
            receipts: Map::new(
                |actor: u64| slots.contains_key(receipt_key(actor)),
                |actor: u64|
                    match slots[receipt_key(actor)].record {
                        Record::Receipt(receipt) => receipt,
                        Record::Counter(_) => UserVote { choice: VoteOptions::Doors, sealed: false },
                    },
            ),
            fees: self.fees as nat,
            version: self.store.spec_version() as nat,
        }
    }
}

impl Ledger {
    /// The slots of the store behind the ledger.
    pub closed spec fn slots(&self) -> Map<u128, Slot> {
        self.store@
    }

    /// The store is in order and holds not so many slots that a tally
    /// could overflow.
    pub closed spec fn stored(&self) -> bool {
        &&& self.store.wf()
        &&& self.slots().contains_key(counter_key()) ==> self.slots().len() == 1
            + self@.receipts.len()
        &&& !self.slots().contains_key(counter_key()) ==> self.slots() == Map::<
            u128,
            Slot,
        >::empty()
    }

    /// The ledger is one that initializing and voting can reach, and its
    /// slots hold it.
    pub open spec fn wf(&self) -> bool {
        &&& self.stored()
        &&& self@.valid()
        &&& represents(self.slots(), self@)
    }

    /// The ledger before anything has happened.
    pub fn new() -> (ledger: Ledger)
        ensures
            ledger.wf(),
            ledger@ == LedgerState::genesis(),
            ledger.slots() == Map::<u128, Slot>::empty(),
    {
        let ledger = Ledger { store: AccountStore::new(), fees: 0 };
        assert(ledger@.receipts =~= Map::<u64, UserVote>::empty());
        ledger
    }

    /// The number of record writes the ledger has taken.
    pub fn version(&self) -> (version: u128)
        ensures
            version == self@.version,
    {
        self.store.version()
    }

    /// What the fee account has taken in.
    pub fn fees_collected(&self) -> (fees: u128)
        ensures
            fees == self@.fees,
    {
        self.fees
    }

    pub fn is_initialized(&self) -> (initialized: bool)
        requires
            self.wf(),
        ensures
            initialized == (self@.tally is Some),
    {
        self.store.contains(derive_key(COUNTER_NAMESPACE, 0))
    }

    /// The store behind the ledger, to read.
    pub fn store(&self) -> (store: &AccountStore)
        requires
            self.wf(),
        ensures
            store.wf(),
            store@ == self.slots(),
            store.spec_version() == self@.version,
    {
        &self.store
    }

    /// Commits a validated request to initialize: creates the counter
    /// record with both tallies at zero. A request that fails leaves the
    /// ledger as it was.
    pub fn commit_initialize(&mut self, request: &Initialize) -> (result: Result<(), LedgerError>)
        requires
            old(self).wf(),
        ensures
            final(self).wf(),
            match old(self)@.commit_initialize_error(*request) {
                Some(e) => {
                    &&& result == Err::<(), LedgerError>(e)
                    &&& final(self)@ == old(self)@
                    &&& final(self).slots() == old(self).slots()
                },
                None => {
                    &&& result is Ok
                    &&& final(self)@ == old(self)@.initialized()
                    &&& final(self).slots() == slots_initialized(
                        old(self).slots(),
                        old(self)@.version,
                    )
                },
            },
    {
        let key = derive_key(COUNTER_NAMESPACE, 0);
        match check_initialize(self.store.contains(key)) {
            Ok(()) => {},
            Err(e) => {
                return Err(e);
            },
        }
        match self.store.check_version(request.version) {
            Ok(()) => {},
            Err(e) => {
                return Err(e);
            },
        }
        let counter = VotesCounter::new();
        let written = self.store.put(key, Owner::Ledger, Record::Counter(counter), false);
        proof {
            lemma_initialize_keeps_valid(old(self)@);
            assert(self@.receipts =~= old(self)@.receipts);
        }
        written
    }

    /// Commits a validated vote of `user`: counts it, creates the receipt
    /// and moves the fee from the actor to the fee account, all or nothing.
    /// A vote that fails leaves ledger and actor as they were.
    pub fn commit_vote(&mut self, user: &mut Actor, request: &Vote) -> (result: Result<
        (),
        LedgerError,
    >)
        requires
            old(self).wf(),
        ensures
            final(self).wf(),
            match old(self)@.commit_vote_error(*old(user), *request) {
                Some(e) => {
                    &&& result == Err::<(), LedgerError>(e)
                    &&& final(self)@ == old(self)@
                    &&& final(self).slots() == old(self).slots()
                    &&& *final(user) == *old(user)
                },
                None => {
                    &&& result is Ok
                    &&& final(self)@ == old(self)@.voted(old(user).id, request.choice)
                    &&& final(self).slots() == slots_voted(
                        old(self).slots(),
                        old(self)@.version,
                        old(user).id,
                        request.choice,
                    )
                    &&& *final(user) == old(user).after_fee()
                },
            },
    {
        let counter_key = derive_key(COUNTER_NAMESPACE, 0);
        let receipt_key = derive_key(RECEIPT_NAMESPACE, user.id);
        let choice = request.choice;
        match check_vote(
            self.store.contains(counter_key),
            self.store.contains(receipt_key),
            user.balance,
            choice.tag(),
        ) {
            Ok(_) => {},
            Err(e) => {
                return Err(e);
            },
        }
        match self.store.check_version(request.version) {
            Ok(()) => {},
            Err(e) => {
                return Err(e);
            },
        }
        proof {
            self.store.lemma_len_bounded();
            lemma_vote_keeps_valid(old(self)@, *old(user), choice);
        }
        let count = |record: Record| -> (out: Record)
            requires
                counts(record, choice),
            ensures
                out == counted(record, choice),
            {
                match record {
                    Record::Counter(mut counter) => {
                        counter.record_vote(choice);
                        Record::Counter(counter)
                    },
                    Record::Receipt(_) => record,
                }
            };
        // Neither write can fail: the counter record is there and the
        // receipt is not.
        match self.store.update(counter_key, count) {
            Ok(()) => {},
            Err(e) => {
                return Err(e);
            },
        }
        let receipt = Record::Receipt(UserVote::new(choice));
        let sealed = self.store.put(receipt_key, Owner::Actor(user.id), receipt, false);
        self.fees = self.fees + VOTING_FEE as u128;
        user.balance = user.balance - VOTING_FEE;
        proof {
            assert(self@.receipts =~= old(self)@.voted(old(user).id, choice).receipts);
        }
        sealed
    }

    /// The two tallies; `NotFound` before the ledger is initialized.
    pub fn get_tally(&self) -> (tally: Result<VotesCounter, LedgerError>)
        requires
            self.wf(),
        ensures
            match self@.tally {
                Some(t) => tally is Ok && tally->Ok_0@ == t,
                None => tally == Err::<VotesCounter, LedgerError>(LedgerError::NotFound),
            },
    {
        match self.store.fetch(derive_key(COUNTER_NAMESPACE, 0)) {
            Ok(Record::Counter(counter)) => Ok(counter),
            _ => Err(LedgerError::NotFound),
        }
    }

    /// Whether `actor` has voted. A receipt, once there, is never taken
    /// away, so this is all that stands between an actor and a second vote.
    pub fn has_voted(&self, actor: u64) -> (voted: bool)
        requires
            self.wf(),
        ensures
            voted == self@.receipts.contains_key(actor),
    {
        self.store.contains(derive_key(RECEIPT_NAMESPACE, actor))
    }

    /// The receipt of `actor`, if the actor has voted.
    pub fn get_receipt(&self, actor: u64) -> (receipt: Option<UserVote>)
        requires
            self.wf(),
        ensures
            receipt == (if self@.receipts.contains_key(actor) {
                Some(self@.receipts[actor])
            } else {
                None
            }),
    {
        match self.store.get(derive_key(RECEIPT_NAMESPACE, actor)) {
            Some(Record::Receipt(receipt)) => Some(receipt),
            _ => None,
        }
    }
}

} // verus!
