//! An in-memory backend for a wallet engine: one immutable secret derived
//! from a passphrase, and one mutable state snapshot that is replaced
//! wholesale on every write.
//!
//! The library is sequential. A caller that shares a store between tasks
//! puts it behind a lock and calls one method per critical section; the
//! order in which the lock is taken is then the order of the writes that
//! the laws in [`model`] speak of.

pub mod model;
pub mod storage;
pub mod types;
