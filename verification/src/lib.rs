//! Versioned-record resolution over an append-only, content-addressed log.
//!
//! An entity is a chain of immutable revisions joined by update links. This
//! crate selects the current revision, reconstructs the revision history,
//! orders deletion markers, and validates proposed update links.

pub mod hash;
pub mod record;
pub mod resolve;
pub mod store;
pub mod datum;
pub mod validation;
pub mod laws;
