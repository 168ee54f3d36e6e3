//! Little-endian encoding of the fixed-width counter field.
//!
//! Every numeric field of the wire format occupies a constant number of
//! bytes, least significant byte first. These functions relate a `u32` to
//! its four-byte encoding and prove the round trip exact.

use vstd::prelude::*;

verus! {

/// Number of bytes the counter record occupies at the front of its slot.
pub const RECORD_WIDTH: usize = 4;

/// The `u32` denoted by four bytes read in little-endian order.
pub open spec fn u32_from_le(b0: u8, b1: u8, b2: u8, b3: u8) -> u32 {
    (b0 as u32) | ((b1 as u32) << 8) | ((b2 as u32) << 16) | ((b3 as u32) << 24)
}

/// Least significant byte of `v`'s little-endian encoding.
pub open spec fn le_byte0(v: u32) -> u8 {
    (v & 0xFF) as u8
}

/// Second byte of `v`'s little-endian encoding.
pub open spec fn le_byte1(v: u32) -> u8 {
    ((v >> 8) & 0xFF) as u8
}

/// Third byte of `v`'s little-endian encoding.
pub open spec fn le_byte2(v: u32) -> u8 {
    ((v >> 16) & 0xFF) as u8
}

/// Most significant byte of `v`'s little-endian encoding.
pub open spec fn le_byte3(v: u32) -> u8 {
    ((v >> 24) & 0xFF) as u8
}

/// Reading back the four bytes of `v`'s encoding yields `v` again, for
/// every representable value.
pub proof fn lemma_le_round_trip(v: u32)
    ensures
        u32_from_le(le_byte0(v), le_byte1(v), le_byte2(v), le_byte3(v)) == v,
{
    assert(u32_from_le(le_byte0(v), le_byte1(v), le_byte2(v), le_byte3(v)) == v) by (bit_vector);
}

/// Assemble a `u32` from four bytes in little-endian order.
pub fn decode_u32_le(b0: u8, b1: u8, b2: u8, b3: u8) -> (v: u32)
    ensures
        v == u32_from_le(b0, b1, b2, b3),
{
    (b0 as u32) | ((b1 as u32) << 8) | ((b2 as u32) << 16) | ((b3 as u32) << 24)
}

/// Split `v` into its four little-endian bytes, least significant first.
pub fn encode_u32_le(v: u32) -> (bytes: (u8, u8, u8, u8))
    ensures
        bytes.0 == le_byte0(v),
        bytes.1 == le_byte1(v),
        bytes.2 == le_byte2(v),
        bytes.3 == le_byte3(v),
{
    (
        (v & 0xFF) as u8,
        ((v >> 8) & 0xFF) as u8,
        ((v >> 16) & 0xFF) as u8,
        ((v >> 24) & 0xFF) as u8,
    )
}

} // verus!
