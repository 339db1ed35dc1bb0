//! Trust-set management for a metrics proxy that only admits known validators.
//!
//! The library derives the set of trusted peers from a validator-set summary,
//! keeps the current snapshot, answers membership queries for a TLS layer and
//! decides, event by event, what a periodic refresh does to that snapshot.

pub mod address;
mod assoc;
pub mod extract;
pub mod fetch;
pub mod key;
pub mod laws;
pub mod peer;
pub mod provider;
pub mod summary;
pub mod trust_set;
