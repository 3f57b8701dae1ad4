//! A vanity-address search engine.
//!
//! The library repeatedly derives key pairs from fresh entropy and tests the
//! derived address against a caller-supplied prefix and suffix, recording
//! per-search progress in a store that a separate query can read.

pub mod crypto;
pub mod engine;
pub mod matching;
pub mod progress;
