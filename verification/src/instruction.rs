//! The stateful processor's instruction decoder.
//!
//! An instruction payload is a tag-prefixed binary encoding: one tag byte
//! selecting the variant, followed by that variant's fields in little-endian
//! order. `InitializeCounter` is tag 0 followed by exactly 8 bytes for its
//! initial value; `IncrementCounter` is tag 1 alone. An unrecognized tag or a
//! payload whose length does not match its tag's shape is rejected, never
//! defaulted.

use vstd::prelude::*;
use crate::codec::{u64_from_le, u64_from_le_slice, u64_le_bytes, u64_to_le_vec};
use crate::error::ProcessError;

verus! {

/// The tag byte that selects `InitializeCounter`.
pub const TAG_INITIALIZE: u8 = 0;

/// The tag byte that selects `IncrementCounter`.
pub const TAG_INCREMENT: u8 = 1;

/// Instructions supported by the counter processor.
#[derive(Clone, Copy, Debug, PartialEq, Eq, Structural)]
pub enum CounterInstruction {
    /// Initialize a new counter record with the given value.
    InitializeCounter { initial_value: u64 },
    /// Increment an existing counter record by 1.
    IncrementCounter,
}

/// The canonical wire encoding of an instruction: its tag byte followed by
/// its fields, little-endian.
pub open spec fn instruction_bytes(i: CounterInstruction) -> Seq<u8> {
    match i {
        CounterInstruction::InitializeCounter { initial_value } => seq![TAG_INITIALIZE] + u64_le_bytes(
            initial_value,
        ),
        CounterInstruction::IncrementCounter => seq![TAG_INCREMENT],
    }
}

/// What the decoder accepts: exactly the canonical encodings. A payload of
/// tag 0 and exactly 8 trailing bytes is `InitializeCounter`; the single
/// byte 1 is `IncrementCounter`; everything else is rejected.
pub open spec fn decoded_instruction(data: Seq<u8>) -> Option<CounterInstruction> {
    if data.len() == 9 && data[0] == TAG_INITIALIZE {
        Some(
            CounterInstruction::InitializeCounter {
                initial_value: u64_from_le(data.skip(1)),
            },
        )
    } else if data.len() == 1 && data[0] == TAG_INCREMENT {
        Some(CounterInstruction::IncrementCounter)
    } else {
        None
    }
}

impl CounterInstruction {
    /// Encodes the instruction into its canonical wire form.
    pub fn encode(&self) -> (r: Vec<u8>)
        ensures
            r@ == instruction_bytes(*self),
    {
        match self {
            CounterInstruction::InitializeCounter { initial_value } => {
                let mut r: Vec<u8> = Vec::new();
                r.push(TAG_INITIALIZE);
                let mut tail = u64_to_le_vec(*initial_value);
                r.append(&mut tail);
                proof {
                    assert(r@ =~= instruction_bytes(*self));
                }
                r
            },
            CounterInstruction::IncrementCounter => {
                let mut r: Vec<u8> = Vec::new();
                r.push(TAG_INCREMENT);
                proof {
                    assert(r@ =~= instruction_bytes(*self));
                }
                r
            },
        }
    }

    /// Parses an instruction payload. Pure; no side effects. Returns the
    /// decoded instruction exactly when the payload is a canonical encoding,
    /// and fails with `InvalidInstruction` on an unrecognized tag, a
    /// truncated payload, or trailing bytes.
    pub fn decode(data: &[u8]) -> (r: Result<CounterInstruction, ProcessError>)
        ensures
            match decoded_instruction(data@) {
                Some(i) => r == Ok::<_, ProcessError>(i),
                None => r == Err::<CounterInstruction, _>(ProcessError::InvalidInstruction),
            },
    {
        if data.len() == 9 && data[0] == TAG_INITIALIZE {
            let tail = vstd::slice::slice_subrange(data, 1, 9);
            proof {
                assert(tail@ =~= data@.skip(1));
            }
            let initial_value = u64_from_le_slice(tail);
            Ok(CounterInstruction::InitializeCounter { initial_value })
        } else if data.len() == 1 && data[0] == TAG_INCREMENT {
            Ok(CounterInstruction::IncrementCounter)
        } else {
            Err(ProcessError::InvalidInstruction)
        }
    }
}

/// Decoding inverts encoding: the canonical wire form of any instruction
/// decodes to that instruction, so encode and decode are inverse operations
/// on every instruction value.
pub proof fn lemma_instruction_round_trip(i: CounterInstruction)
    ensures
        decoded_instruction(instruction_bytes(i)) == Some(i),
{
    match i {
        CounterInstruction::InitializeCounter { initial_value } => {
            let data = instruction_bytes(i);
            assert(data.skip(1) =~= u64_le_bytes(initial_value));
            crate::codec::lemma_le_round_trip(initial_value);
        },
        CounterInstruction::IncrementCounter => {},
    }
}

} // verus!
