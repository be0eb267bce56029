//! Trust-verification core for a blockchain light client.
//!
//! The crate has two layers. `pred` is a small, generic algebra of fully
//! saturated boolean predicates: checks whose data is bound at construction
//! time, which can be combined (and/or/not/implies), named, and turned into
//! assertions that report a typed failure. On top of it, `predicates` and
//! `verification` encode the rule set a light client must pass before advancing
//! trust from an anchored header to a new one, and `trusted_store` keeps the
//! per-height anchors behind a reader/writer lock.

pub mod pred;
pub mod types;
pub mod operations;
pub mod predicates;
pub mod trusted_store;
pub mod verification;
