//! Brute-force search for a vanity keypair: a keypair whose textual address,
//! case-normalized, starts with a caller-chosen prefix.
//!
//! The search coordination (a one-way `found` flag, a lost-update-free attempt
//! counter, a write-once match result) is modelled and verified here; key
//! generation and address rendering are supplied by the chain SDK behind
//! trusted wrappers.

pub mod favorites;
pub mod keys;
pub mod matching;
pub mod search;
pub mod secret;

pub use favorites::{set_favorites, update_favorites, ErrorCode, Favorites};
pub use keys::Candidate;
pub use matching::address_matches;
pub use search::{find_vanity_key, MatchResult, SearchOutcome, SearchSession, WorkerPool};
pub use secret::parse_secret_key;
