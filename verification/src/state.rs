//! The persisted counter record and its binary state codec.
//!
//! A counter record is the sole persisted entity: a single unsigned 64-bit
//! count. Its on-disk layout is exactly the 8-byte little-endian encoding of
//! that count, and encoding and decoding are inverse operations for every
//! representable value.

use vstd::prelude::*;
use crate::codec::{u64_from_le, u64_from_le_slice, u64_le_bytes, u64_to_le_vec, RECORD_SIZE};
use crate::error::ProcessError;

verus! {

/// A counter record: the data a counter account persists.
#[derive(Clone, Copy, Debug, PartialEq, Eq, Structural)]
pub struct CounterAccount {
    /// The current counter value.
    pub count: u64,
}

impl CounterAccount {
    /// Encodes the record into its fixed 8-byte layout. Total; never fails.
    pub fn encode(&self) -> (r: Vec<u8>)
        ensures
            r@ == u64_le_bytes(self.count),
            r@.len() == RECORD_SIZE,
    {
        u64_to_le_vec(self.count)
    }

    /// Decodes a record from stored bytes. Any buffer holding at least the
    /// record's 8 bytes is valid and yields the count read little-endian from
    /// its first 8 bytes; a shorter buffer cannot represent a record and is
    /// rejected as `MalformedState`.
    pub fn decode(bytes: &[u8]) -> (r: Result<CounterAccount, ProcessError>)
        ensures
            bytes@.len() >= RECORD_SIZE ==> r == Ok::<_, ProcessError>(
                CounterAccount { count: u64_from_le(bytes@) },
            ),
            bytes@.len() < RECORD_SIZE ==> r == Err::<CounterAccount, _>(
                ProcessError::MalformedState,
            ),
    {
        if bytes.len() < RECORD_SIZE {
            Err(ProcessError::MalformedState)
        } else {
            Ok(CounterAccount { count: u64_from_le_slice(bytes) })
        }
    }

    /// Computes the successor record with a checked addition: fails with
    /// `ArithmeticOverflow` instead of wrapping when the count is already at
    /// the maximum representable value.
    pub fn incremented(&self) -> (r: Result<CounterAccount, ProcessError>)
        ensures
            self.count < u64::MAX ==> r == Ok::<_, ProcessError>(
                CounterAccount { count: (self.count + 1) as u64 },
            ),
            self.count == u64::MAX ==> r == Err::<CounterAccount, _>(
                ProcessError::ArithmeticOverflow,
            ),
    {
        if self.count < u64::MAX {
            Ok(CounterAccount { count: self.count + 1 })
        } else {
            Err(ProcessError::ArithmeticOverflow)
        }
    }
}

/// Round-trip law of the binary state codec: decoding the encoding of any
/// record yields that record back, for every representable count.
pub proof fn lemma_record_round_trip(r: CounterAccount)
    ensures
        u64_le_bytes(r.count).len() == RECORD_SIZE,
        u64_from_le(u64_le_bytes(r.count)) == r.count,
{
    crate::codec::lemma_le_round_trip(r.count);
}

} // verus!
