//! A minimal state-transition processor for a single unsigned counter.
//!
//! An instruction buffer is decoded into a tagged command, the command is
//! applied to a fixed-width counter record, and the record is written back
//! into its storage slot in place, little-endian.

pub mod codec;
pub mod instructions;
pub mod engine;
pub mod state;

use vstd::prelude::*;

verus! {

/// The failures an invocation can surface.
#[derive(Clone, Copy, Debug, PartialEq, Eq, Structural)]
pub enum CounterError {
    /// Unknown tag byte, empty buffer, or truncated instruction payload.
    InvalidInstruction,
    /// State buffer too short to contain the fixed-width record.
    MalformedState,
    /// The serialized result cannot be written back to the slot.
    StorageWriteFailure,
}

} // verus!
