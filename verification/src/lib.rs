//! A small ledger for one question, doors or wheels: two tallies, one vote
//! per actor, and a fixed fee for each vote.
//!
//! The records live in an [`AccountStore`]. A request is first validated,
//! which writes nothing, and then committed, which writes everything the
//! request stands for or nothing at all. [`initialize`] and [`vote`] do both
//! in one step.

pub mod engine;
pub mod error;
pub mod host;
pub mod laws;
pub mod ledger;
pub mod model;
pub mod record;
pub mod request;
pub mod store;
pub mod validator;

pub use engine::{initialize, vote};
pub use error::LedgerError;
pub use host::{voting_fee_transfer, AccountMeta, TransferInstruction};
pub use ledger::Ledger;
pub use record::{UserVote, VoteOptions, VotesCounter};
pub use request::{Actor, Initialize, Vote, VOTING_FEE};
pub use store::{AccountStore, Owner, Record, Slot};
pub use validator::{check_initialize, check_vote, validate_initialize, validate_vote};
