//! Chain-of-custody tracking for discrete items moving through a multi-party
//! supply chain.
//!
//! The crate is built from four components: a role registry (which identities
//! hold which participant role), an item store (the tracked items and their
//! current custody state), a provenance log (an append-only, per-item ordered
//! sequence of transition events), and the custody state machine that
//! orchestrates them. Every accepted transition updates exactly one item and
//! appends exactly one audit event; every rejected call leaves the whole state
//! unchanged.

pub mod errors;
pub mod items;
pub mod provenance;
pub mod roles;
pub mod tracker;
