//! The core of a small service for sharing text: a time-to-live cache that
//! keeps serialized values under string keys, and the choice of how a read is
//! answered.
//!
//! - `entry`: one cache entry and when it is fresh.
//! - `store`: the mapping from keys to entries, written and read at an
//!   instant that the caller names.
//! - `local_cache`: the operations `set`, `setex` and `get`, which go by the
//!   wall clock.
//! - `laws`: what holds of every sequence of writes and reads.
//! - `reply`: the form and the content of an answer.
//!
//! The cache keeps text. A caller that stores typed values serializes them
//! before a write and decodes what a read returns; text that does not decode
//! is for the caller a miss like any other.

mod clock;
pub mod entry;
pub mod laws;
pub mod local_cache;
pub mod reply;
pub mod store;
