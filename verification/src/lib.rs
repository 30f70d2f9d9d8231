//! A per-branch index of the commit identifiers reachable from each tracked
//! branch tip, kept in a key-value set store, together with the logic that
//! answers containment queries against it: "is every commit of this change
//! present in branch B?".
//!
//! The crate holds the verified core of the service:
//! - the readiness state machine that gates queries ([`state`]),
//! - the layout of the store's keys ([`keys`]),
//! - the branch set store with its stage-then-swap refresh protocol
//!   ([`store`]),
//! - the indexing pass over the tracked branches ([`orchestrator`]),
//! - the inclusion query engine ([`query`]).
//!
//! Everything that talks to the network — the commit-graph source, the
//! key-value store's wire protocol, the change provider and the HTTP
//! transport — lives outside this crate and exchanges plain values with it.

pub mod config;
pub mod keys;
pub mod orchestrator;
pub mod query;
pub mod state;
pub mod store;
