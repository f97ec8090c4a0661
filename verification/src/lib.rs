//! Top-of-book tracking for one instrument of an exchange feed.
//!
//! Prices and quantities are fixed-precision integers: the caller scales the
//! feed's decimal numbers once, at the edge, and the library never sees a
//! fraction.

pub mod engine;
pub mod invariants;
pub mod message;
pub mod operations;
pub mod sequence;
