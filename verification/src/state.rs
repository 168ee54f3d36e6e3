//! The state record and its storage-slot serialization.
//!
//! One record, one unsigned counter, stored fixed-width little-endian in
//! the leading bytes of an externally owned slot. Reading ignores excess
//! trailing bytes; writing overwrites only the record's own bytes.

use vstd::prelude::*;

use crate::CounterError;
use crate::codec::RECORD_WIDTH;
use crate::codec::encode_u32_le;
use crate::codec::decode_u32_le;
use crate::codec::u32_from_le;
use crate::codec::lemma_le_round_trip;
use crate::codec::le_byte0;
use crate::codec::le_byte1;
use crate::codec::le_byte2;
use crate::codec::le_byte3;

verus! {

/// The state record: a single non-negative fixed-width counter. The backing
/// bytes are allocated and owned by the host; this crate only reads and
/// overwrites them in place.
#[derive(Clone, Copy, Debug, PartialEq, Eq, Structural)]
pub struct CounterAccount {
    /// The counter value held by the record.
    pub counter: u32,
}

/// Whether `slot` is long enough to hold the fixed-width record.
pub open spec fn spec_slot_ok(slot: Seq<u8>) -> bool {
    slot.len() >= RECORD_WIDTH
}

/// The counter stored in the leading four bytes of a slot.
pub open spec fn spec_stored_counter(slot: Seq<u8>) -> u32
    recommends
        spec_slot_ok(slot),
{
    u32_from_le(slot[0], slot[1], slot[2], slot[3])
}

/// `slot` with its leading four bytes overwritten by `v`'s little-endian
/// encoding; every trailing byte is left untouched.
pub open spec fn spec_store(slot: Seq<u8>, v: u32) -> Seq<u8> {
    slot.update(0, le_byte0(v)).update(1, le_byte1(v)).update(2, le_byte2(v)).update(
        3,
        le_byte3(v),
    )
}

/// Round trip: serializing a counter into any adequate slot and then
/// deserializing yields the identical value, for every representable
/// counter, zero and the maximum included, and for every slot content.
pub proof fn lemma_serialize_round_trip(slot: Seq<u8>, v: u32)
    requires
        spec_slot_ok(slot),
    ensures
        spec_slot_ok(spec_store(slot, v)),
        spec_stored_counter(spec_store(slot, v)) == v,
{
    lemma_le_round_trip(v);
}

/// Writing a record back touches nothing past the record's own width: the
/// stored slot keeps its length and all its trailing bytes.
pub proof fn lemma_store_preserves_tail(slot: Seq<u8>, v: u32)
    requires
        spec_slot_ok(slot),
    ensures
        spec_store(slot, v).len() == slot.len(),
        forall|i: int| RECORD_WIDTH <= i < slot.len() ==> spec_store(slot, v)[i] == slot[i],
{
}

impl CounterAccount {
    /// Read the record from the leading bytes of its slot. Succeeds exactly
    /// when the slot holds at least the record's width; excess trailing
    /// bytes are ignored, and a shorter slot is `MalformedState`. A
    /// zero-initialized slot reads as counter zero.
    pub fn try_from_slice(bytes: &[u8]) -> (r: Result<CounterAccount, CounterError>)
        ensures
            spec_slot_ok(bytes@) ==> r == Ok::<CounterAccount, CounterError>(
                CounterAccount { counter: spec_stored_counter(bytes@) },
            ),
            !spec_slot_ok(bytes@) ==> r == Err::<CounterAccount, CounterError>(
                CounterError::MalformedState,
            ),
    {
        if bytes.len() < RECORD_WIDTH {
            return Err(CounterError::MalformedState);
        }
        let counter = decode_u32_le(bytes[0], bytes[1], bytes[2], bytes[3]);
        Ok(CounterAccount { counter })
    }

    /// Write the record back into the leading bytes of `slot`, little-endian,
    /// leaving every trailing byte untouched. A slot shorter than the record
    /// cannot be written and is reported as `StorageWriteFailure`, with the
    /// slot unchanged.
    pub fn serialize(&self, slot: &mut Vec<u8>) -> (r: Result<(), CounterError>)
        ensures
            spec_slot_ok(old(slot)@) ==> {
                &&& r == Ok::<(), CounterError>(())
                &&& final(slot)@ == spec_store(old(slot)@, self.counter)
            },
            !spec_slot_ok(old(slot)@) ==> {
                &&& r == Err::<(), CounterError>(CounterError::StorageWriteFailure)
                &&& final(slot)@ == old(slot)@
            },
    {
        if slot.len() < RECORD_WIDTH {
            return Err(CounterError::StorageWriteFailure);
        }
        let bytes = encode_u32_le(self.counter);
        slot[0] = bytes.0;
        slot[1] = bytes.1;
        slot[2] = bytes.2;
        slot[3] = bytes.3;
        Ok(())
    }
}

} // verus!
