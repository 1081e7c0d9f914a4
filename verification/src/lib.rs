//! An account-based state-transition processor for a ledger-style virtual
//! machine, together with a small stateless arithmetic evaluator that shares
//! its dispatch pattern.
//!
//! The stateful core decodes a tag-prefixed instruction payload, authorizes it
//! against the account references supplied with the call, mutates or
//! provisions a persistent counter record, and re-serializes the result into
//! a fixed 8-byte little-endian layout. The host environment (instruction
//! entry point, system-level account creation, balance lookup, logging) sits
//! outside this crate and hands it plain values.

pub mod account;
pub mod calculator;
pub mod codec;
pub mod error;
pub mod identity;
pub mod instruction;
pub mod state;
