//! The instruction decoder: raw bytes to a typed, tagged command.
//!
//! Wire format: one tag byte, then for `Increment`, `Decrement` and
//! `Update` a four-byte little-endian amount; `Reset` carries no payload.
//! An empty buffer, an unknown tag or a truncated payload is rejected,
//! with no partial decode and no default command.

use vstd::prelude::*;

use crate::CounterError;
use crate::codec::decode_u32_le;
use crate::codec::u32_from_le;

verus! {

/// Tag byte of `Increment` on the wire.
pub const INCREMENT_TAG: u8 = 0;

/// Tag byte of `Decrement` on the wire.
pub const DECREMENT_TAG: u8 = 1;

/// Tag byte of `Update` on the wire.
pub const UPDATE_TAG: u8 = 2;

/// Tag byte of `Reset` on the wire.
pub const RESET_TAG: u8 = 3;

/// A decoded command: exactly one mutation of the counter. Constructed by
/// the decoder, consumed by the engine, never persisted.
#[derive(Clone, Copy, Debug, PartialEq, Eq, Structural)]
pub enum CounterInstructions {
    /// Add the amount to the counter.
    Increment(u32),
    /// Subtract the amount from the counter, flooring at zero.
    Decrement(u32),
    /// Set the counter to zero.
    Reset,
    /// Replace the counter with the value.
    Update(u32),
}

/// Whether `bytes` is a well-formed instruction: a known tag byte, and a
/// payload of at least four bytes where the command carries one. Excess
/// trailing bytes are tolerated.
pub open spec fn spec_decode_ok(bytes: Seq<u8>) -> bool {
    &&& bytes.len() >= 1
    &&& (bytes[0] == RESET_TAG || (bytes[0] <= UPDATE_TAG && bytes.len() >= 5))
}

/// The command a well-formed instruction buffer denotes.
pub open spec fn spec_decode(bytes: Seq<u8>) -> CounterInstructions
    recommends
        spec_decode_ok(bytes),
{
    if bytes[0] == RESET_TAG {
        CounterInstructions::Reset
    } else {
        let amount = u32_from_le(bytes[1], bytes[2], bytes[3], bytes[4]);
        if bytes[0] == INCREMENT_TAG {
            CounterInstructions::Increment(amount)
        } else if bytes[0] == DECREMENT_TAG {
            CounterInstructions::Decrement(amount)
        } else {
            CounterInstructions::Update(amount)
        }
    }
}

impl CounterInstructions {
    /// Parse one instruction buffer. Returns the exactly-specified command
    /// for every well-formed buffer, and `InvalidInstruction` for every
    /// other: an empty buffer, a tag byte outside the four known
    /// discriminants, or a buffer shorter than tag plus payload.
    pub fn decode(bytes: &[u8]) -> (r: Result<CounterInstructions, CounterError>)
        ensures
            spec_decode_ok(bytes@) ==> r == Ok::<CounterInstructions, CounterError>(
                spec_decode(bytes@),
            ),
            !spec_decode_ok(bytes@) ==> r == Err::<CounterInstructions, CounterError>(
                CounterError::InvalidInstruction,
            ),
    {
        if bytes.len() == 0 {
            return Err(CounterError::InvalidInstruction);
        }
        let tag = bytes[0];
        if tag == RESET_TAG {
            return Ok(CounterInstructions::Reset);
        }
        if tag > UPDATE_TAG || bytes.len() < 5 {
            return Err(CounterError::InvalidInstruction);
        }
        let amount = decode_u32_le(bytes[1], bytes[2], bytes[3], bytes[4]);
        if tag == INCREMENT_TAG {
            Ok(CounterInstructions::Increment(amount))
        } else if tag == DECREMENT_TAG {
            Ok(CounterInstructions::Decrement(amount))
        } else {
            Ok(CounterInstructions::Update(amount))
        }
    }
}

} // verus!
