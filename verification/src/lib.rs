//! Deterministic state-transition engine for a small social-publishing
//! platform: user profiles, rate-limited blog-post creation, voting, and
//! collector attribution records.
//!
//! Every record is addressed by a deterministic key (owner identity, a parent
//! key, and/or a counter). The hosting environment supplies identity proofs, a
//! key-value record store, and a monotonic clock; this crate holds the rules
//! that create, validate, and mutate the records, and proves that the tallies
//! and counters they maintain stay consistent.

pub mod collector;
pub mod constant;
pub mod error;
pub mod post;
pub mod profile;
pub mod rate_limit;
pub mod state;
pub mod text;
pub mod validation;
pub mod vote;
