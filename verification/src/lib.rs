//! Core contracts for conflict-free replicated data types.
//!
//! A replica holds one value of a domain type inside a [`ops_based::Payload`]
//! or [`state_based::Payload`] container. The domain type brings its own
//! semantics by implementing the operation-based or the state-based update
//! contract; the state-based style additionally rests on a join-semilattice,
//! whose algebraic laws every implementation must prove. Replication itself
//! (shipping operations or states between replicas) is the caller's business.

pub mod max_register;
pub mod ops_based;
pub mod state_based;
