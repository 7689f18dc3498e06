//! A time-locked token vault: a depositor locks a token holding for a fixed
//! number of seconds, and may retrieve it once the lock has expired.
//!
//! The verified core works on plain values: 32-byte addresses, signed
//! timestamps and unsigned amounts. The host runtime supplies the clock and
//! performs the ledger operations that the core plans and checks.

pub mod account;
pub mod address;
pub mod authority;
pub mod errors;
pub mod laws;
pub mod ops;
pub mod world;
