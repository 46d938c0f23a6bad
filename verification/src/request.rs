use crate::record::VoteOptions;
use vstd::prelude::*;

verus! {

/// The price of one vote, in base units. It is the same for both options and
/// no request can change it.
pub const VOTING_FEE: u64 = 20161200;

/// An actor as the host presents it with a request: who asks, and what the
/// actor can spend. The ledger keeps no actors; it only debits the one it is
/// handed.
#[derive(Clone, Copy, Debug, PartialEq, Eq, Structural)]
pub struct Actor {
    pub id: u64,
    pub balance: u64,
}

impl Actor {
    /// The actor once the voting fee is paid.
    pub open spec fn after_fee(self) -> Actor
        recommends
            self.balance >= VOTING_FEE,
    {
        Actor { id: self.id, balance: (self.balance - VOTING_FEE) as u64 }
    }
}

/// A request to initialize that passed validation, with the version of the
/// ledger it was validated against.
#[derive(Clone, Copy, Debug, PartialEq, Eq, Structural)]
pub struct Initialize {
    pub version: u128,
}

/// A vote that passed validation, with the version of the ledger it was
/// validated against.
#[derive(Clone, Copy, Debug, PartialEq, Eq, Structural)]
pub struct Vote {
    pub choice: VoteOptions,
    pub version: u128,
}

} // verus!
