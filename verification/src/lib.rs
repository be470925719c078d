//! Credential and encrypted-identity core of a small marketplace service.
//!
//! The crate protects user secrets at rest, makes an encrypted field
//! searchable through a one-way digest, hashes passwords, and issues and
//! validates signed session tokens. Every function carries a contract that
//! Verus proves; calls into cryptographic crates stand behind small wrappers
//! whose contracts are assumed and documented as such.

pub mod encryption;
pub mod errors;
pub mod hashing;
pub mod identity;
pub mod jwt;
pub mod lookup;
pub mod middleware;
pub mod text;
