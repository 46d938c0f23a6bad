use doors_vs_wheels::store::{derive_key, COUNTER_NAMESPACE, RECEIPT_NAMESPACE};
use doors_vs_wheels::{
    AccountStore, LedgerError, Owner, Record, Slot, UserVote, VoteOptions, VotesCounter,
};

fn counter(doors: u64, wheels: u64) -> Record {
    Record::Counter(VotesCounter { doors, wheels })
}

#[test]
fn keys_hold_namespace_and_actor() {
    assert_eq!(COUNTER_NAMESPACE, 0);
    assert_eq!(RECEIPT_NAMESPACE, 1);
    assert_eq!(derive_key(0, 0), 0);
    assert_eq!(derive_key(1, 5), 18_446_744_073_709_551_621);
    assert_eq!(derive_key(1, u64::MAX), (1u128 << 65) - 1);
    assert_eq!(derive_key(u64::MAX, u64::MAX), u128::MAX);
    assert_ne!(derive_key(1, 0), derive_key(0, 1));
}

#[test]
fn empty_store() {
    let store = AccountStore::new();
    assert_eq!(store.version(), 0);
    assert_eq!(store.len(), 0);
    assert!(!store.contains(0));
    assert_eq!(store.get(0), None);
    assert_eq!(store.slot(0), None);
    assert_eq!(store.fetch(0), Err(LedgerError::NotFound));
}

#[test]
fn put_creates_and_stamps() {
    let mut store = AccountStore::new();
    assert_eq!(store.put(3, Owner::Ledger, counter(1, 2), false), Ok(()));
    assert_eq!(store.version(), 1);
    assert_eq!(store.len(), 1);
    assert!(store.contains(3));
    assert_eq!(store.get(3), Some(counter(1, 2)));
    assert_eq!(store.fetch(3), Ok(counter(1, 2)));
    assert_eq!(
        store.slot(3),
        Some(Slot { owner: Owner::Ledger, version: 1, record: counter(1, 2) })
    );
}

#[test]
fn put_on_occupied_slot_needs_overwrite() {
    let mut store = AccountStore::new();
    assert_eq!(store.put(3, Owner::Ledger, counter(1, 2), false), Ok(()));
    assert_eq!(
        store.put(3, Owner::Actor(9), counter(5, 5), false),
        Err(LedgerError::AlreadyExists)
    );
    assert_eq!(store.version(), 1);
    assert_eq!(
        store.slot(3),
        Some(Slot { owner: Owner::Ledger, version: 1, record: counter(1, 2) })
    );
    assert_eq!(store.put(3, Owner::Actor(9), counter(5, 5), true), Ok(()));
    assert_eq!(store.version(), 2);
    assert_eq!(store.len(), 1);
    assert_eq!(
        store.slot(3),
        Some(Slot { owner: Owner::Actor(9), version: 2, record: counter(5, 5) })
    );
}

#[test]
fn update_applies_the_function_and_keeps_the_owner() {
    let mut store = AccountStore::new();
    let receipt = Record::Receipt(UserVote { choice: VoteOptions::Wheels, sealed: false });
    assert_eq!(store.put(1, Owner::Ledger, counter(0, 0), false), Ok(()));
    assert_eq!(store.put(2, Owner::Actor(4), receipt, false), Ok(()));
    let bump = |record: Record| match record {
        Record::Counter(c) => Record::Counter(VotesCounter { doors: c.doors + 10, wheels: c.wheels }),
        Record::Receipt(r) => Record::Receipt(UserVote { choice: r.choice, sealed: true }),
    };
    assert_eq!(store.update(1, bump), Ok(()));
    assert_eq!(store.update(2, bump), Ok(()));
    assert_eq!(store.version(), 4);
    assert_eq!(
        store.slot(1),
        Some(Slot { owner: Owner::Ledger, version: 3, record: counter(10, 0) })
    );
    assert_eq!(
        store.slot(2),
        Some(Slot {
            owner: Owner::Actor(4),
            version: 4,
            record: Record::Receipt(UserVote { choice: VoteOptions::Wheels, sealed: true }),
        })
    );
}

#[test]
fn update_of_empty_slot_is_not_found() {
    let mut store = AccountStore::new();
    assert_eq!(store.put(1, Owner::Ledger, counter(0, 0), false), Ok(()));
    assert_eq!(store.update(2, |record: Record| record), Err(LedgerError::NotFound));
    assert_eq!(store.version(), 1);
    assert_eq!(store.len(), 1);
    assert!(!store.contains(2));
}

#[test]
fn version_check_tells_a_stale_reader() {
    let mut store = AccountStore::new();
    assert_eq!(store.check_version(0), Ok(()));
    assert_eq!(store.check_version(1), Err(LedgerError::Conflict));
    assert_eq!(store.put(1, Owner::Ledger, counter(0, 0), false), Ok(()));
    assert_eq!(store.check_version(0), Err(LedgerError::Conflict));
    assert_eq!(store.check_version(1), Ok(()));
    assert_eq!(store.put(1, Owner::Ledger, counter(0, 0), false), Err(LedgerError::AlreadyExists));
    assert_eq!(store.check_version(1), Ok(()));
}
