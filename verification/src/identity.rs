//! Owning identities.
//!
//! The ledger addresses accounts and contracts by 32-byte identities. The
//! processor never inspects an identity beyond comparing it for equality, so
//! it carries the 32 bytes as four 64-bit little-endian words; the host
//! environment converts its own key type to and from this form at the
//! boundary.

use vstd::prelude::*;

verus! {

/// A 32-byte ledger identity, held as four little-endian 64-bit words
/// (`w0` holds bytes 0..8, `w3` bytes 24..32).
#[derive(Clone, Copy, Debug, PartialEq, Eq, Structural)]
pub struct Identity {
    pub w0: u64,
    pub w1: u64,
    pub w2: u64,
    pub w3: u64,
}

impl Identity {
    /// Builds an identity from its four little-endian words.
    pub fn new(w0: u64, w1: u64, w2: u64, w3: u64) -> (r: Identity)
        ensures
            r == (Identity { w0, w1, w2, w3 }),
    {
        Identity { w0, w1, w2, w3 }
    }
}

} // verus!
