//! A crowdfunding ledger: time-boxed fundraising campaigns ("rallies") with a
//! funding goal and deadline, per-contributor contribution records, a feedback
//! log gated on prior contribution, and a queryable index of contributor
//! aggregates. Every state-changing command is a total function from the
//! current store, the caller, and the block time to either a new store (plus
//! an outbound transfer instruction where funds move) or an error; queries are
//! read-only. The host that authenticates callers, persists the store, and
//! executes transfer instructions sits outside this crate.

pub mod contract;
pub mod error;
pub mod laws;
pub mod lemmas;
pub mod lex;
pub mod msg;
pub mod state;
