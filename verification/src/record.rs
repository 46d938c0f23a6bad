use crate::error::LedgerError;
use vstd::bytes::{
    lemma_auto_spec_u64_to_from_le_bytes, spec_u64_from_le_bytes, spec_u64_to_le_bytes,
    u64_from_le_bytes, u64_to_le_bytes,
};
use vstd::prelude::*;
use vstd::slice::slice_subrange;

verus! {

/// Bytes at the start of every persisted record that belong to the host.
/// The ledger carries them along and never reads them.
pub const HEADER_LEN: usize = 8;

/// Bytes a counter record takes after the header: two tallies.
pub const COUNTER_LEN: usize = 16;

/// Bytes a vote receipt takes after the header: a seal tag and a choice tag.
pub const RECEIPT_LEN: usize = 2;

/// The two sides of the question.
#[derive(Clone, Copy, Debug, PartialEq, Eq, Structural)]
pub enum VoteOptions {
    Doors,
    Wheels,
}

impl VoteOptions {
    /// The byte that stands for this option wherever a choice is written down.
    pub open spec fn spec_tag(self) -> u8 {
        match self {
            VoteOptions::Doors => 0,
            VoteOptions::Wheels => 1,
        }
    }

    /// The option that a tag stands for, if it stands for one.
    pub open spec fn spec_from_tag(tag: u8) -> Result<VoteOptions, LedgerError> {
        if tag == 0 {
            Ok(VoteOptions::Doors)
        } else if tag == 1 {
            Ok(VoteOptions::Wheels)
        } else {
            Err(LedgerError::InvalidChoice)
        }
    }

    #[verifier::when_used_as_spec(spec_tag)]
    pub fn tag(self) -> (t: u8)
        ensures
            t == self.spec_tag(),
    {
        match self {
            VoteOptions::Doors => 0,
            VoteOptions::Wheels => 1,
        }
    }

    /// Reads a choice tag. This is the one place where the set of options is
    /// checked: a tag other than 0 and 1 is `InvalidChoice`.
    pub fn from_tag(tag: u8) -> (choice: Result<VoteOptions, LedgerError>)
        ensures
            choice == Self::spec_from_tag(tag),
    {
        if tag == 0 {
            Ok(VoteOptions::Doors)
        } else if tag == 1 {
            Ok(VoteOptions::Wheels)
        } else {
            Err(LedgerError::InvalidChoice)
        }
    }
}

/// The counter record: one tally per option.
#[derive(Clone, Copy, Debug, PartialEq, Eq, Structural)]
pub struct VotesCounter {
    pub doors: u64,
    pub wheels: u64,
}

impl VotesCounter {
    /// The number of votes counted, both options together.
    pub open spec fn total(self) -> nat {
        (self.doors + self.wheels) as nat
    }

    /// The tally of one option.
    pub open spec fn tally(self, choice: VoteOptions) -> u64 {
        match choice {
            VoteOptions::Doors => self.doors,
            VoteOptions::Wheels => self.wheels,
        }
    }

    /// The counter with one more vote for `choice` and the other tally as it was.
    pub open spec fn with_vote(self, choice: VoteOptions) -> VotesCounter
        recommends
            self.tally(choice) < u64::MAX,
    {
        match choice {
            VoteOptions::Doors => VotesCounter { doors: (self.doors + 1) as u64, wheels: self.wheels },
            VoteOptions::Wheels => VotesCounter { doors: self.doors, wheels: (self.wheels + 1) as u64 },
        }
    }

    /// What the record looks like behind the header: `doors`, then `wheels`,
    /// each as eight bytes, least significant first.
    pub open spec fn body(self) -> Seq<u8> {
        spec_u64_to_le_bytes(self.doors) + spec_u64_to_le_bytes(self.wheels)
    }

    /// The counter that a persisted record holds. The header and whatever
    /// follows the sixteen bytes of the body are not looked at; a record too
    /// short to hold both tallies holds no counter.
    pub open spec fn spec_restore(bytes: Seq<u8>) -> Option<VotesCounter> {
        if bytes.len() >= HEADER_LEN + COUNTER_LEN {
            Some(
                VotesCounter {
                    doors: spec_u64_from_le_bytes(bytes.subrange(8, 16)),
                    wheels: spec_u64_from_le_bytes(bytes.subrange(16, 24)),
                },
            )
        } else {
            None
        }
    }

    /// The counter at genesis.
    pub fn new() -> (counter: VotesCounter)
        ensures
            counter == (VotesCounter { doors: 0, wheels: 0 }),
    {
        VotesCounter { doors: 0, wheels: 0 }
    }

    pub fn count(&self, choice: VoteOptions) -> (n: u64)
        ensures
            n == self.tally(choice),
    {
        match choice {
            VoteOptions::Doors => self.doors,
            VoteOptions::Wheels => self.wheels,
        }
    }

    /// Counts one vote. A tally that stands at `u64::MAX` cannot count
    /// another one.
    pub fn record_vote(&mut self, choice: VoteOptions)
        requires
            old(self).tally(choice) < u64::MAX,
        ensures
            *final(self) == old(self).with_vote(choice),
    {
        match choice {
            VoteOptions::Doors => {
                self.doors = self.doors + 1;
            },
            VoteOptions::Wheels => {
                self.wheels = self.wheels + 1;
            },
        }
    }

    /// Writes the record out behind the host's header.
    pub fn persist(&self, header: &[u8; 8]) -> (bytes: Vec<u8>)
        ensures
            bytes@ == header@ + self.body(),
    {
        let mut bytes: Vec<u8> = copy_header(header);
        let mut doors = u64_to_le_bytes(self.doors);
        let mut wheels = u64_to_le_bytes(self.wheels);
        bytes.append(&mut doors);
        bytes.append(&mut wheels);
        bytes
    }

    /// Reads a persisted record back.
    pub fn restore(bytes: &[u8]) -> (counter: Option<VotesCounter>)
        ensures
            counter == Self::spec_restore(bytes@),
    {
        if bytes.len() < HEADER_LEN + COUNTER_LEN {
            return None;
        }
        let doors = u64_from_le_bytes(slice_subrange(bytes, 8, 16));
        let wheels = u64_from_le_bytes(slice_subrange(bytes, 16, 24));
        Some(VotesCounter { doors, wheels })
    }
}

/// A vote receipt: what one actor chose. Once sealed it stands for good.
#[derive(Clone, Copy, Debug, PartialEq, Eq, Structural)]
pub struct UserVote {
    pub choice: VoteOptions,
    pub sealed: bool,
}

impl UserVote {
    /// What the record looks like behind the header: the seal tag (1 when
    /// sealed, else 0), then the choice tag.
    pub open spec fn body(self) -> Seq<u8> {
        seq![if self.sealed { 1u8 } else { 0u8 }, self.choice.spec_tag()]
    }

    /// The receipt that a persisted record holds. The header and whatever
    /// follows the two bytes of the body are not looked at; a record that is
    /// too short, or whose seal tag or choice tag is above 1, holds no
    /// receipt.
    pub open spec fn spec_restore(bytes: Seq<u8>) -> Option<UserVote> {
        if bytes.len() >= HEADER_LEN + RECEIPT_LEN && bytes[8] <= 1 && bytes[9] <= 1 {
            Some(
                UserVote {
                    choice: if bytes[9] == 0 {
                        VoteOptions::Doors
                    } else {
                        VoteOptions::Wheels
                    },
                    sealed: bytes[8] == 1,
                },
            )
        } else {
            None
        }
    }

    /// The receipt that a successful vote leaves behind.
    pub fn new(choice: VoteOptions) -> (receipt: UserVote)
        ensures
            receipt == (UserVote { choice, sealed: true }),
    {
        UserVote { choice, sealed: true }
    }

    /// Writes the record out behind the host's header.
    pub fn persist(&self, header: &[u8; 8]) -> (bytes: Vec<u8>)
        ensures
            bytes@ == header@ + self.body(),
    {
        let mut bytes: Vec<u8> = copy_header(header);
        bytes.push(if self.sealed { 1 } else { 0 });
        bytes.push(self.choice.tag());
        bytes
    }

    /// Reads a persisted record back.
    pub fn restore(bytes: &[u8]) -> (receipt: Option<UserVote>)
        ensures
            receipt == Self::spec_restore(bytes@),
    {
        if bytes.len() < HEADER_LEN + RECEIPT_LEN {
            return None;
        }
        let seal: u8 = bytes[8];
        if seal > 1 {
            return None;
        }
        match VoteOptions::from_tag(bytes[9]) {
            Ok(choice) => Some(UserVote { choice, sealed: seal == 1 }),
            Err(_) => None,
        }
    }
}

fn copy_header(header: &[u8; 8]) -> (bytes: Vec<u8>)
    ensures
        bytes@ == header@,
{
    let mut bytes: Vec<u8> = Vec::new();
    let mut i: usize = 0;
    while i < 8
        invariant
            i <= 8,
            bytes@ == header@.subrange(0, i as int),
        decreases 8 - i,
    {
        bytes.push(header[i]);
        i = i + 1;
    }
    bytes
}

/// A counter that was written out is read back as it was, whatever the
/// header holds and whatever follows the record.
pub proof fn lemma_counter_round_trip(counter: VotesCounter, header: Seq<u8>, rest: Seq<u8>)
    requires
        header.len() == HEADER_LEN,
    ensures
        VotesCounter::spec_restore(header + counter.body() + rest) == Some(counter),
{
    lemma_auto_spec_u64_to_from_le_bytes();
    let bytes = header + counter.body() + rest;
    assert(bytes.subrange(8, 16) == spec_u64_to_le_bytes(counter.doors));
    assert(bytes.subrange(16, 24) == spec_u64_to_le_bytes(counter.wheels));
}

/// A receipt that was written out is read back as it was, whatever the
/// header holds and whatever follows the record.
pub proof fn lemma_receipt_round_trip(receipt: UserVote, header: Seq<u8>, rest: Seq<u8>)
    requires
        header.len() == HEADER_LEN,
    ensures
        UserVote::spec_restore(header + receipt.body() + rest) == Some(receipt),
{
    let bytes = header + receipt.body() + rest;
    assert(bytes[8] == receipt.body()[0]);
    assert(bytes[9] == receipt.body()[1]);
}

/// Every option has a tag, and the tag reads back as the option.
pub proof fn lemma_tag_round_trip(choice: VoteOptions)
    ensures
        VoteOptions::spec_from_tag(choice.spec_tag()) == Ok::<VoteOptions, LedgerError>(choice),
{
}

} // verus!
