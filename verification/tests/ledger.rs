use doors_vs_wheels::{
    initialize, validate_initialize, validate_vote, vote, Actor, Initialize, Ledger, LedgerError,
    Owner, Record, UserVote, Vote, VoteOptions, VotesCounter, VOTING_FEE,
};

fn funded(id: u64) -> Actor {
    Actor { id, balance: 3 * VOTING_FEE }
}

fn started() -> Ledger {
    let mut ledger = Ledger::new();
    assert_eq!(initialize(&mut ledger), Ok(()));
    ledger
}

#[test]
fn voting_fee_is_fixed() {
    assert_eq!(VOTING_FEE, 20_161_200);
}

#[test]
fn new_ledger_is_empty() {
    let ledger = Ledger::new();
    assert!(!ledger.is_initialized());
    assert_eq!(ledger.version(), 0);
    assert_eq!(ledger.fees_collected(), 0);
    assert_eq!(ledger.get_tally(), Err(LedgerError::NotFound));
    assert_eq!(ledger.get_receipt(1), None);
    assert_eq!(ledger.store().len(), 0);
}

#[test]
fn initialize_creates_zero_tally() {
    let mut ledger = Ledger::new();
    assert_eq!(initialize(&mut ledger), Ok(()));
    assert!(ledger.is_initialized());
    assert_eq!(ledger.get_tally(), Ok(VotesCounter { doors: 0, wheels: 0 }));
    assert_eq!(ledger.version(), 1);
    assert_eq!(ledger.fees_collected(), 0);
}

#[test]
fn second_initialize_is_rejected_and_changes_nothing() {
    let mut ledger = started();
    let mut a = funded(1);
    assert_eq!(vote(&mut ledger, &mut a, VoteOptions::Wheels), Ok(()));
    let before = ledger.get_tally();
    let version = ledger.version();
    assert_eq!(initialize(&mut ledger), Err(LedgerError::AlreadyInitialized));
    assert_eq!(ledger.get_tally(), before);
    assert_eq!(ledger.get_tally(), Ok(VotesCounter { doors: 0, wheels: 1 }));
    assert_eq!(ledger.version(), version);
    assert_eq!(ledger.get_receipt(1), Some(UserVote { choice: VoteOptions::Wheels, sealed: true }));
}

#[test]
fn first_vote_counts_and_second_is_duplicate() {
    let mut ledger = started();
    let mut a = funded(42);
    assert_eq!(vote(&mut ledger, &mut a, VoteOptions::Doors), Ok(()));
    assert_eq!(ledger.get_tally(), Ok(VotesCounter { doors: 1, wheels: 0 }));
    assert_eq!(a.balance, 2 * VOTING_FEE);
    assert_eq!(ledger.fees_collected(), VOTING_FEE as u128);

    assert_eq!(vote(&mut ledger, &mut a, VoteOptions::Doors), Err(LedgerError::DuplicateVote));
    assert_eq!(vote(&mut ledger, &mut a, VoteOptions::Wheels), Err(LedgerError::DuplicateVote));
    assert_eq!(ledger.get_tally(), Ok(VotesCounter { doors: 1, wheels: 0 }));
    assert_eq!(a.balance, 2 * VOTING_FEE);
    assert_eq!(ledger.fees_collected(), VOTING_FEE as u128);
    assert_eq!(ledger.get_receipt(42), Some(UserVote { choice: VoteOptions::Doors, sealed: true }));
}

#[test]
fn duplicate_vote_comes_before_insufficient_funds() {
    let mut ledger = started();
    let mut a = Actor { id: 5, balance: VOTING_FEE };
    assert_eq!(vote(&mut ledger, &mut a, VoteOptions::Wheels), Ok(()));
    assert_eq!(a.balance, 0);
    assert_eq!(vote(&mut ledger, &mut a, VoteOptions::Wheels), Err(LedgerError::DuplicateVote));
    assert_eq!(validate_vote(&ledger, &a, 9), Err(LedgerError::DuplicateVote));
}

#[test]
fn vote_on_uninitialized_ledger_is_rejected() {
    let mut ledger = Ledger::new();
    let mut a = funded(1);
    assert_eq!(vote(&mut ledger, &mut a, VoteOptions::Doors), Err(LedgerError::NotInitialized));
    assert_eq!(vote(&mut ledger, &mut a, VoteOptions::Wheels), Err(LedgerError::NotInitialized));
    assert_eq!(a, funded(1));
    assert_eq!(ledger.version(), 0);
    assert_eq!(ledger.get_receipt(1), None);
    let mut poor = Actor { id: 2, balance: 0 };
    assert_eq!(vote(&mut ledger, &mut poor, VoteOptions::Doors), Err(LedgerError::NotInitialized));
    assert_eq!(validate_vote(&ledger, &poor, 200), Err(LedgerError::NotInitialized));
}

#[test]
fn two_actors_vote_for_different_choices() {
    let mut ledger = started();
    assert_eq!(ledger.get_tally(), Ok(VotesCounter { doors: 0, wheels: 0 }));
    let mut a = funded(1);
    let mut b = funded(2);
    assert_eq!(vote(&mut ledger, &mut a, VoteOptions::Doors), Ok(()));
    assert_eq!(vote(&mut ledger, &mut b, VoteOptions::Wheels), Ok(()));
    assert_eq!(ledger.get_tally(), Ok(VotesCounter { doors: 1, wheels: 1 }));
    assert_eq!(ledger.get_receipt(1), Some(UserVote { choice: VoteOptions::Doors, sealed: true }));
    assert_eq!(ledger.get_receipt(2), Some(UserVote { choice: VoteOptions::Wheels, sealed: true }));
}

#[test]
fn two_actors_validated_against_the_same_version() {
    let mut ledger = started();
    let mut a = funded(1);
    let mut b = funded(2);
    let vote_a = validate_vote(&ledger, &a, VoteOptions::Doors.tag()).unwrap();
    let vote_b = validate_vote(&ledger, &b, VoteOptions::Wheels.tag()).unwrap();
    assert_eq!(vote_a, Vote { choice: VoteOptions::Doors, version: 1 });
    assert_eq!(vote_b, Vote { choice: VoteOptions::Wheels, version: 1 });

    assert_eq!(ledger.commit_vote(&mut a, &vote_a), Ok(()));
    assert_eq!(ledger.commit_vote(&mut b, &vote_b), Err(LedgerError::Conflict));
    assert!(LedgerError::Conflict.is_retryable());
    assert_eq!(ledger.get_tally(), Ok(VotesCounter { doors: 1, wheels: 0 }));
    assert_eq!(b, funded(2));
    assert_eq!(ledger.get_receipt(2), None);

    let again = validate_vote(&ledger, &b, VoteOptions::Wheels.tag()).unwrap();
    assert_eq!(again, Vote { choice: VoteOptions::Wheels, version: 3 });
    assert_eq!(ledger.commit_vote(&mut b, &again), Ok(()));
    assert_eq!(ledger.get_tally(), Ok(VotesCounter { doors: 1, wheels: 1 }));
    assert_eq!(ledger.get_receipt(1), Some(UserVote { choice: VoteOptions::Doors, sealed: true }));
    assert_eq!(ledger.get_receipt(2), Some(UserVote { choice: VoteOptions::Wheels, sealed: true }));
}

#[test]
fn committing_the_same_vote_twice_is_a_duplicate() {
    let mut ledger = started();
    let mut a = funded(1);
    let request = validate_vote(&ledger, &a, 0).unwrap();
    assert_eq!(ledger.commit_vote(&mut a, &request), Ok(()));
    assert_eq!(ledger.commit_vote(&mut a, &request), Err(LedgerError::DuplicateVote));
    assert_eq!(ledger.get_tally(), Ok(VotesCounter { doors: 1, wheels: 0 }));
    assert_eq!(a.balance, 2 * VOTING_FEE);
}

#[test]
fn stale_initialize_is_rejected() {
    let mut ledger = Ledger::new();
    let request = validate_initialize(&ledger).unwrap();
    assert_eq!(request, Initialize { version: 0 });
    assert_eq!(ledger.commit_initialize(&Initialize { version: 7 }), Err(LedgerError::Conflict));
    assert!(!ledger.is_initialized());
    assert_eq!(ledger.commit_initialize(&request), Ok(()));
    assert_eq!(ledger.commit_initialize(&request), Err(LedgerError::AlreadyInitialized));
    assert_eq!(validate_initialize(&ledger), Err(LedgerError::AlreadyInitialized));
}

#[test]
fn insufficient_funds_leaves_tally_and_balance() {
    let mut ledger = started();
    let mut rich = funded(1);
    assert_eq!(vote(&mut ledger, &mut rich, VoteOptions::Doors), Ok(()));
    let mut poor = Actor { id: 2, balance: VOTING_FEE - 1 };
    assert_eq!(vote(&mut ledger, &mut poor, VoteOptions::Wheels), Err(LedgerError::InsufficientFunds));
    assert_eq!(poor, Actor { id: 2, balance: VOTING_FEE - 1 });
    assert_eq!(ledger.get_tally(), Ok(VotesCounter { doors: 1, wheels: 0 }));
    assert_eq!(ledger.get_receipt(2), None);
    assert_eq!(ledger.fees_collected(), VOTING_FEE as u128);
    assert_eq!(ledger.version(), 3);
    let mut broke = Actor { id: 3, balance: 0 };
    assert_eq!(vote(&mut ledger, &mut broke, VoteOptions::Doors), Err(LedgerError::InsufficientFunds));
    assert_eq!(broke.balance, 0);
}

#[test]
fn balance_equal_to_fee_is_enough() {
    let mut ledger = started();
    let mut a = Actor { id: 9, balance: VOTING_FEE };
    assert_eq!(vote(&mut ledger, &mut a, VoteOptions::Wheels), Ok(()));
    assert_eq!(a, Actor { id: 9, balance: 0 });
    assert_eq!(ledger.get_tally(), Ok(VotesCounter { doors: 0, wheels: 1 }));
}

#[test]
fn invalid_choice_is_checked_last() {
    let ledger = started();
    let a = funded(1);
    assert_eq!(validate_vote(&ledger, &a, 2), Err(LedgerError::InvalidChoice));
    assert_eq!(validate_vote(&ledger, &a, 255), Err(LedgerError::InvalidChoice));
    let poor = Actor { id: 1, balance: 3 };
    assert_eq!(validate_vote(&ledger, &poor, 2), Err(LedgerError::InsufficientFunds));
    assert_eq!(validate_vote(&ledger, &a, 0), Ok(Vote { choice: VoteOptions::Doors, version: 1 }));
    assert_eq!(validate_vote(&ledger, &a, 1), Ok(Vote { choice: VoteOptions::Wheels, version: 1 }));
}

#[test]
fn validation_writes_nothing() {
    let ledger = started();
    let a = funded(1);
    for _ in 0..3 {
        assert!(validate_vote(&ledger, &a, 0).is_ok());
    }
    assert_eq!(ledger.version(), 1);
    assert_eq!(ledger.get_tally(), Ok(VotesCounter { doors: 0, wheels: 0 }));
    assert_eq!(ledger.get_receipt(1), None);
    assert_eq!(a, funded(1));
}

#[test]
fn tallies_add_up_to_accepted_votes() {
    let mut ledger = started();
    let mut accepted: u64 = 0;
    let mut doors: u64 = 0;
    for round in 0..3 {
        for id in 0..20u64 {
            let mut actor = Actor { id, balance: if id % 5 == 4 { 10 } else { VOTING_FEE + id } };
            let choice = if (id + round) % 3 == 0 { VoteOptions::Doors } else { VoteOptions::Wheels };
            let result = vote(&mut ledger, &mut actor, choice);
            if result.is_ok() {
                accepted += 1;
                if choice == VoteOptions::Doors {
                    doors += 1;
                }
                assert_eq!(actor.balance, id);
            } else if id % 5 == 4 {
                assert_eq!(result, Err(LedgerError::InsufficientFunds));
            } else {
                assert_eq!(result, Err(LedgerError::DuplicateVote));
            }
            let tally = ledger.get_tally().unwrap();
            assert_eq!(tally.doors + tally.wheels, accepted);
            assert_eq!(tally.doors, doors);
        }
    }
    assert_eq!(accepted, 16);
    assert_eq!(ledger.get_tally(), Ok(VotesCounter { doors: 6, wheels: 10 }));
    assert_eq!(ledger.fees_collected(), 16 * VOTING_FEE as u128);
    assert_eq!(ledger.version(), 33);
    assert_eq!(ledger.store().len(), 17);
}

#[test]
fn store_behind_the_ledger_tags_owners_and_versions() {
    let mut ledger = started();
    let mut a = funded(7);
    assert_eq!(vote(&mut ledger, &mut a, VoteOptions::Doors), Ok(()));
    let store = ledger.store();
    assert_eq!(store.version(), 3);
    let counter = store.slot(0).unwrap();
    assert_eq!(counter.owner, Owner::Ledger);
    assert_eq!(counter.version, 2);
    assert_eq!(counter.record, Record::Counter(VotesCounter { doors: 1, wheels: 0 }));
    let receipt = store.slot((1u128 << 64) + 7).unwrap();
    assert_eq!(receipt.owner, Owner::Actor(7));
    assert_eq!(receipt.version, 3);
    assert_eq!(
        receipt.record,
        Record::Receipt(UserVote { choice: VoteOptions::Doors, sealed: true })
    );
}

#[test]
fn only_conflict_is_retryable() {
    assert!(LedgerError::Conflict.is_retryable());
    for e in [
        LedgerError::AlreadyInitialized,
        LedgerError::NotInitialized,
        LedgerError::DuplicateVote,
        LedgerError::InvalidChoice,
        LedgerError::InsufficientFunds,
        LedgerError::NotFound,
        LedgerError::AlreadyExists,
    ] {
        assert!(!e.is_retryable());
    }
}

#[test]
fn receipt_is_the_replay_guard() {
    let mut ledger = started();
    assert!(!ledger.has_voted(3));
    let mut a = funded(3);
    assert_eq!(vote(&mut ledger, &mut a, VoteOptions::Wheels), Ok(()));
    assert!(ledger.has_voted(3));
    assert!(!ledger.has_voted(4));
    assert_eq!(initialize(&mut ledger), Err(LedgerError::AlreadyInitialized));
    let mut b = funded(4);
    assert_eq!(vote(&mut ledger, &mut b, VoteOptions::Doors), Ok(()));
    assert!(ledger.has_voted(3));
    assert_eq!(ledger.get_receipt(3), Some(UserVote { choice: VoteOptions::Wheels, sealed: true }));
}
