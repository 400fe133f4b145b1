//! A referral and fee-splitting ledger for a token-swap platform.
//!
//! The library is the platform's decision core: given the current records
//! (a global [`state::Config`], a per-user [`state::UserAccount`] and a
//! per-referrer [`state::ReferrerStats`]) and a swap's parameters, it
//! computes the exact fee split, the value transfers to perform, and the
//! updated records. The hosting environment supplies the records, executes
//! the returned transfers atomically, and persists the returned records;
//! every operation here is a pure, verified state transition.

pub mod engine;
pub mod errors;
pub mod events;
pub mod laws;
pub mod state;
