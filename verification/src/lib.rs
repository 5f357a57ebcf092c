//! A pooled-ticket raffle settlement library.
//!
//! Participants buy tickets into a shared pool, a designated randomness
//! authority supplies entropy, and the pool deterministically derives a
//! winner and pays out the pooled funds. Every operation is a validated,
//! atomic state transition over plain record values; the surrounding
//! ledger runtime performs the actual fund transfers and record storage.

pub mod bytes;
pub mod identity;
pub mod addressing;
pub mod pool;
pub mod ops;
pub mod laws;
pub mod registry;
