//! Little-endian integer primitives for the binary state codec.
//!
//! The persisted counter record is exactly the 8-byte little-endian encoding
//! of its count; these functions state and implement that layout.

use vstd::prelude::*;

verus! {

/// The fixed on-disk size of a counter record, in bytes.
pub const RECORD_SIZE: usize = 8;

/// The little-endian byte sequence of `v`: byte `i` holds `v / 256^i % 256`.
pub open spec fn u64_le_bytes(v: u64) -> Seq<u8> {
    seq![
        (v % 0x100) as u8,
        (v / 0x100 % 0x100) as u8,
        (v / 0x1_0000 % 0x100) as u8,
        (v / 0x100_0000 % 0x100) as u8,
        (v / 0x1_0000_0000 % 0x100) as u8,
        (v / 0x100_0000_0000 % 0x100) as u8,
        (v / 0x1_0000_0000_0000 % 0x100) as u8,
        (v / 0x100_0000_0000_0000 % 0x100) as u8,
    ]
}

/// The unsigned 64-bit value read little-endian from the first 8 bytes of `s`.
pub open spec fn u64_from_le(s: Seq<u8>) -> u64
    recommends
        s.len() >= 8,
{
    (s[0] as int + s[1] as int * 0x100 + s[2] as int * 0x1_0000 + s[3] as int * 0x100_0000
        + s[4] as int * 0x1_0000_0000 + s[5] as int * 0x100_0000_0000
        + s[6] as int * 0x1_0000_0000_0000 + s[7] as int * 0x100_0000_0000_0000) as u64
}

/// Reading back the little-endian bytes of any value yields that value:
/// the two spec-level codec directions are inverses on every `u64`.
pub proof fn lemma_le_round_trip(v: u64)
    ensures
        u64_from_le(u64_le_bytes(v)) == v,
{
    assert(v % 0x100 + (v / 0x100 % 0x100) * 0x100 + (v / 0x1_0000 % 0x100) * 0x1_0000 + (v
        / 0x100_0000 % 0x100) * 0x100_0000 + (v / 0x1_0000_0000 % 0x100) * 0x1_0000_0000 + (v
        / 0x100_0000_0000 % 0x100) * 0x100_0000_0000 + (v / 0x1_0000_0000_0000 % 0x100)
        * 0x1_0000_0000_0000 + (v / 0x100_0000_0000_0000 % 0x100) * 0x100_0000_0000_0000 == v)
        by (bit_vector);
}

/// Encodes `v` as its 8 little-endian bytes.
pub fn u64_to_le_vec(v: u64) -> (r: Vec<u8>)
    ensures
        r@ == u64_le_bytes(v),
        r@.len() == 8,
{
    let mut r: Vec<u8> = Vec::new();
    r.push((v % 0x100) as u8);
    r.push((v / 0x100 % 0x100) as u8);
    r.push((v / 0x1_0000 % 0x100) as u8);
    r.push((v / 0x100_0000 % 0x100) as u8);
    r.push((v / 0x1_0000_0000 % 0x100) as u8);
    r.push((v / 0x100_0000_0000 % 0x100) as u8);
    r.push((v / 0x1_0000_0000_0000 % 0x100) as u8);
    r.push((v / 0x100_0000_0000_0000 % 0x100) as u8);
    proof {
        assert(r@ =~= u64_le_bytes(v));
    }
    r
}

/// Decodes the unsigned 64-bit value stored little-endian in the first
/// 8 bytes of `s`.
pub fn u64_from_le_slice(s: &[u8]) -> (r: u64)
    requires
        s@.len() >= 8,
    ensures
        r == u64_from_le(s@),
{
    let b0: u64 = s[0] as u64;
    let b1: u64 = s[1] as u64;
    let b2: u64 = s[2] as u64;
    let b3: u64 = s[3] as u64;
    let b4: u64 = s[4] as u64;
    let b5: u64 = s[5] as u64;
    let b6: u64 = s[6] as u64;
    let b7: u64 = s[7] as u64;
    b0 + b1 * 0x100 + b2 * 0x1_0000 + b3 * 0x100_0000 + b4 * 0x1_0000_0000 + b5 * 0x100_0000_0000
        + b6 * 0x1_0000_0000_0000 + b7 * 0x100_0000_0000_0000
}

} // verus!
