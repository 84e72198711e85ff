//! Sequencing core of a rollup-style node.
//!
//! The library derives the immutable execution environment for the next
//! batch of the chain, enforces the temporal invariants that hold across
//! sequencing boundaries, reconstructs the pending (not yet sealed) part of
//! the chain after a restart, and prepares the durable record of a batch's
//! initial parameters.  All store access happens outside the library: callers
//! perform the reads and writes and hand the results in as plain values, so
//! every decision made here is verified.

pub mod env;
pub mod loader;
pub mod persist;
pub mod poll;
pub mod recovery;
pub mod sync;
pub mod types;
pub mod verification;
