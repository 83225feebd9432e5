//! Pseudonymous-identity and anti-abuse engine for a public message board.
//!
//! The crate derives rotating display identifiers and permanent ban-matching
//! hashes from a visitor's identity, deduplicates device fingerprints, matches
//! bans against scopes, enforces rule-driven sliding-window rate limits, and
//! runs the multi-stage verification pipeline that guards every write action.

pub mod auth;
pub mod bans;
pub mod crypto;
pub mod errors;
pub mod identity;
pub mod level_up;
pub mod models;
pub mod posting;
pub mod rate_limiter;
pub mod text;
pub mod user_history;
pub mod verification;
