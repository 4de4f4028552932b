//! A cache-or-fetch library for a remotely published JSON bootstrap file.
//!
//! The heart of the library is a verified decision machine
//! ([`machine::Machine`]) that chooses, for one cache slot, between reading
//! the cached copy and fetching a fresh one, and that enforces an atomic
//! write discipline (parse before write, write to a temporary file, rename
//! as the single commit point). An unverified driver performs the actual
//! filesystem and network operations and feeds their outcomes back to the
//! machine as events.

pub mod json;
pub mod laws;
pub mod machine;
pub mod slot;
