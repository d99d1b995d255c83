//! A ledger-resident voting protocol: polls with a fixed candidate list and a
//! voting window, exactly-once voter registration and voting, anonymous
//! ballots keyed by a voter-chosen nullifier, and a write-once tally.
//!
//! Every operation is an atomic transition of a [`state::Ledger`]: it either
//! commits all of its writes and returns the event it emits, or returns an
//! [`state::ErrorCode`] and leaves the ledger untouched.
pub mod state;
pub mod voting;
pub mod laws;
pub mod slots;

pub use crate::voting::{initialize_counter, initialize_poll, publish_results, register_voter, vote};
