//! Token-weighted governance engine.
//!
//! Members create proposals, cast votes weighted by a quadratic function of
//! liquid and time-locked holdings, optionally delegate their voting rights to
//! a single-level proxy, and — for treasury proposals — escrow and later
//! disburse or reclaim funds contingent on the vote outcome and a
//! post-deadline timelock.
//!
//! The engine is a pure state machine over plain records. Its external
//! collaborators — the token custody ledger, the persistent keyed store, the
//! clock, and caller authentication — stay outside: every entry point takes
//! the already-fetched records it needs together with the current time and the
//! caller's identity, validates, mutates at most the records it owns, and
//! returns a typed result. Identities are opaque comparable values, carried as
//! `u64`.

pub mod admin;
pub mod delegation;
pub mod error;
pub mod gamification;
pub mod power;
pub mod proposal;
pub mod staking;
pub mod state;
pub mod tally;
pub mod treasury;
pub mod voting;
