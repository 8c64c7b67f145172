//! A small in-process key-value cache whose entries expire a fixed time after
//! they were stored.
//!
//! * [`time`] holds the expiration policy and its length in seconds.
//! * [`clock`] holds the instants that entries are stamped with, and the one
//!   place where the system clock is read.
//! * [`cache`] holds the cache itself and the mathematical state that its
//!   contracts speak of.
//! * [`laws`] holds what follows for sequences of operations.

pub mod cache;
pub mod clock;
pub mod laws;
pub mod time;
