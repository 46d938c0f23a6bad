use crate::error::LedgerError;
use crate::record::{UserVote, VotesCounter};
use std::collections::HashMap;
use vstd::prelude::*;

verus! {

/// Who a record belongs to.
#[derive(Clone, Copy, Debug, PartialEq, Eq, Structural)]
pub enum Owner {
    /// The ledger itself: no actor writes such a record directly.
    Ledger,
    /// The actor whose request created the record.
    Actor(u64),
}

/// What a slot can hold.
#[derive(Clone, Copy, Debug, PartialEq, Eq, Structural)]
pub enum Record {
    Counter(VotesCounter),
    Receipt(UserVote),
}

/// An occupied slot: the record, its owner, and the store version at which
/// it was last written.
#[derive(Clone, Copy, Debug, PartialEq, Eq, Structural)]
pub struct Slot {
    pub owner: Owner,
    pub version: u128,
    pub record: Record,
}

/// The namespace of the counter record.
pub const COUNTER_NAMESPACE: u64 = 0;

/// The namespace of the vote receipts.
pub const RECEIPT_NAMESPACE: u64 = 1;

/// The key of the slot that a namespace holds for an actor: the namespace in
/// the upper half, the actor in the lower half.
pub open spec fn spec_derive_key(namespace: u64, actor: u64) -> u128 {
    (namespace * 0x1_0000_0000_0000_0000 + actor) as u128
}

#[verifier::when_used_as_spec(spec_derive_key)]
pub fn derive_key(namespace: u64, actor: u64) -> (key: u128)
    ensures
        key == spec_derive_key(namespace, actor),
{
    (namespace as u128) * 0x1_0000_0000_0000_0000u128 + (actor as u128)
}

/// Two slots share a key only if they share namespace and actor.
pub proof fn lemma_derive_key_injective(n1: u64, a1: u64, n2: u64, a2: u64)
    requires
        spec_derive_key(n1, a1) == spec_derive_key(n2, a2),
    ensures
        n1 == n2,
        a1 == a2,
{
}

/// A map from keys to records that counts its writes. Every successful
/// write raises the store's version by one and stamps the slot it wrote
/// with the new version; a failed write changes nothing.
pub struct AccountStore {
    slots: HashMap<u128, Slot>,
    version: u128,
}

impl View for AccountStore {
    type V = Map<u128, Slot>;

    closed spec fn view(&self) -> Map<u128, Slot> {
        self.slots@
    }
}

impl AccountStore {
    /// The number of writes the store has taken.
    pub closed spec fn spec_version(&self) -> u128 {
        self.version
    }

    /// No slot is stamped with a version that the store has not reached,
    /// and none with version 0, which is the store before its first write.
    pub open spec fn wf(&self) -> bool {
        &&& self@.dom().finite()
        &&& forall|key: u128| #[trigger]
            self@.contains_key(key) ==> 1 <= self@[key].version <= self.spec_version()
    }

    /// A store can never hold more slots than `usize` can count.
    pub proof fn lemma_len_bounded(&self)
        ensures
            self@.len() <= usize::MAX,
    {
        assert(vstd::std_specs::hash::spec_hash_map_len(&self.slots) == self.slots@.len());
    }

    pub fn new() -> (store: AccountStore)
        ensures
            store@ == Map::<u128, Slot>::empty(),
            store.spec_version() == 0,
            store.wf(),
    {
        AccountStore { slots: HashMap::new(), version: 0 }
    }

    #[verifier::when_used_as_spec(spec_version)]
    pub fn version(&self) -> (version: u128)
        ensures
            version == self.spec_version(),
    {
        self.version
    }

    /// Whether the store still stands at the version that a reader saw:
    /// `Conflict` if it was written to since. A writer that computed from
    /// what it read at `seen` commits only if this holds.
    pub fn check_version(&self, seen: u128) -> (result: Result<(), LedgerError>)
        ensures
            result == (if seen == self.spec_version() {
                Ok::<(), LedgerError>(())
            } else {
                Err::<(), LedgerError>(LedgerError::Conflict)
            }),
    {
        if seen == self.version {
            Ok(())
        } else {
            Err(LedgerError::Conflict)
        }
    }

    /// The number of occupied slots.
    pub fn len(&self) -> (n: usize)
        ensures
            n == self@.len(),
    {
        self.slots.len()
    }

    pub fn contains(&self, key: u128) -> (occupied: bool)
        ensures
            occupied == self@.contains_key(key),
    {
        self.slots.contains_key(&key)
    }

    /// The whole slot under `key`, if it is occupied.
    pub fn slot(&self, key: u128) -> (slot: Option<Slot>)
        ensures
            slot == (if self@.contains_key(key) {
                Some(self@[key])
            } else {
                None
            }),
    {
        match self.slots.get(&key) {
            Some(slot) => Some(*slot),
            None => None,
        }
    }

    /// The record under `key`, if the slot is occupied.
    pub fn get(&self, key: u128) -> (record: Option<Record>)
        ensures
            record == (if self@.contains_key(key) {
                Some(self@[key].record)
            } else {
                None
            }),
    {
        match self.slots.get(&key) {
            Some(slot) => Some(slot.record),
            None => None,
        }
    }

    /// The record under a key that has to be there: `NotFound` if the slot
    /// is empty.
    pub fn fetch(&self, key: u128) -> (record: Result<Record, LedgerError>)
        ensures
            record == (if self@.contains_key(key) {
                Ok::<Record, LedgerError>(self@[key].record)
            } else {
                Err::<Record, LedgerError>(LedgerError::NotFound)
            }),
    {
        match self.slots.get(&key) {
            Some(slot) => Ok(slot.record),
            None => Err(LedgerError::NotFound),
        }
    }

    /// Writes `record` under `key`. An occupied slot is only written over
    /// when `overwrite` is set; otherwise the store stays as it is and the
    /// result is `AlreadyExists`.
    pub fn put(&mut self, key: u128, owner: Owner, record: Record, overwrite: bool) -> (result:
        Result<(), LedgerError>)
        requires
            old(self).wf(),
            old(self).spec_version() < u128::MAX,
        ensures
            final(self).wf(),
            old(self)@.contains_key(key) && !overwrite ==> {
                &&& result == Err::<(), LedgerError>(LedgerError::AlreadyExists)
                &&& final(self)@ == old(self)@
                &&& final(self).spec_version() == old(self).spec_version()
            },
            !old(self)@.contains_key(key) || overwrite ==> {
                &&& result is Ok
                &&& final(self).spec_version() == old(self).spec_version() + 1
                &&& final(self)@ == old(self)@.insert(
                    key,
                    Slot { owner, version: final(self).spec_version(), record },
                )
            },
            old(self)@.contains_key(key) && overwrite ==> final(self)@[key].version > old(
                self,
            )@[key].version,
    {
        if !overwrite && self.slots.contains_key(&key) {
            return Err(LedgerError::AlreadyExists);
        }
        self.version = self.version + 1;
        self.slots.insert(key, Slot { owner, version: self.version, record });
        Ok(())
    }

    /// Replaces the record under `key` by what `f` makes of it, keeping the
    /// owner. `NotFound`, and nothing changed, if the slot is empty.
    pub fn update<F: FnOnce(Record) -> Record>(&mut self, key: u128, f: F) -> (result: Result<
        (),
        LedgerError,
    >)
        requires
            old(self).wf(),
            old(self).spec_version() < u128::MAX,
            old(self)@.contains_key(key) ==> f.requires((old(self)@[key].record,)),
        ensures
            final(self).wf(),
            !old(self)@.contains_key(key) ==> {
                &&& result == Err::<(), LedgerError>(LedgerError::NotFound)
                &&& final(self)@ == old(self)@
                &&& final(self).spec_version() == old(self).spec_version()
            },
            old(self)@.contains_key(key) ==> {
                &&& result is Ok
                &&& final(self).spec_version() == old(self).spec_version() + 1
                &&& f.ensures((old(self)@[key].record,), final(self)@[key].record)
                &&& final(self)@[key].version > old(self)@[key].version
                &&& final(self)@ == old(self)@.insert(
                    key,
                    Slot {
                        owner: old(self)@[key].owner,
                        version: final(self).spec_version(),
                        record: final(self)@[key].record,
                    },
                )
            },
    {
        let slot = match self.slots.get(&key) {
            Some(slot) => *slot,
            None => {
                return Err(LedgerError::NotFound);
            },
        };
        let record = f(slot.record);
        self.version = self.version + 1;
        self.slots.insert(key, Slot { owner: slot.owner, version: self.version, record });
        Ok(())
    }
}

} // verus!
