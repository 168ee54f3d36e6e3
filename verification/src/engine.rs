//! The state transition engine: one atomic read-modify-write of the record.
//!
//! Each invocation deserializes the current record from its slot, applies
//! exactly one mutation rule picked by the command's tag, and serializes
//! the result back into the same slot in place. `Increment` wraps at the
//! counter's fixed width; `Decrement` floors at zero.

use vstd::prelude::*;

use crate::CounterError;
use crate::instructions::CounterInstructions;
use crate::instructions::spec_decode;
use crate::instructions::spec_decode_ok;
use crate::state::CounterAccount;
use crate::state::spec_slot_ok;
use crate::state::spec_store;
use crate::state::spec_stored_counter;

verus! {

/// The counter value after applying one command: the four mutation rules.
/// `Increment` adds modulo the fixed width; `Decrement` subtracts only
/// while the current value exceeds the subtrahend, else floors at zero;
/// `Reset` yields zero; `Update` replaces the value outright.
pub open spec fn spec_step(counter: u32, cmd: CounterInstructions) -> u32 {
    match cmd {
        CounterInstructions::Increment(n) => ((counter + n) % 0x1_0000_0000) as u32,
        CounterInstructions::Decrement(n) => if counter > n {
            (counter - n) as u32
        } else {
            0u32
        },
        CounterInstructions::Reset => 0u32,
        CounterInstructions::Update(v) => v,
    }
}

impl CounterAccount {
    /// Apply one command to the record in place, per the mutation rules of
    /// `spec_step`. Increment wraps at the fixed width — the documented
    /// overflow policy of this crate; Decrement never underflows.
    pub fn apply(&mut self, instruction: &CounterInstructions)
        ensures
            final(self).counter == spec_step(old(self).counter, *instruction),
    {
        match *instruction {
            CounterInstructions::Increment(n) => {
                self.counter = self.counter.wrapping_add(n);
            },
            CounterInstructions::Decrement(n) => {
                if self.counter > n {
                    self.counter = self.counter - n;
                } else {
                    self.counter = 0;
                }
            },
            CounterInstructions::Reset => {
                self.counter = 0;
            },
            CounterInstructions::Update(v) => {
                self.counter = v;
            },
        }
    }
}

/// `Increment(0)`, `Decrement(0)` and `Update(current)` are no-ops: they
/// leave the counter value unchanged, whatever it is.
pub proof fn lemma_no_op_commands(counter: u32)
    ensures
        spec_step(counter, CounterInstructions::Increment(0)) == counter,
        spec_step(counter, CounterInstructions::Decrement(0)) == counter,
        spec_step(counter, CounterInstructions::Update(counter)) == counter,
{
}

/// Decrement floor: for every counter and subtrahend the result is
/// `max(counter - n, 0)` under real (unbounded) subtraction, and exactly
/// zero whenever `n` is at least the counter.
pub proof fn lemma_decrement_floor(counter: u32, n: u32)
    ensures
        spec_step(counter, CounterInstructions::Decrement(n)) == vstd::math::max(
            counter - n,
            0,
        ),
        n >= counter ==> spec_step(counter, CounterInstructions::Decrement(n)) == 0,
{
}

/// Reset always yields zero, regardless of the prior value.
pub proof fn lemma_reset_zeroes(counter: u32)
    ensures
        spec_step(counter, CounterInstructions::Reset) == 0,
{
}

/// Update always replaces: the result is the given value, and the prior
/// counter plays no part in it.
pub proof fn lemma_update_replaces(counter: u32, other: u32, v: u32)
    ensures
        spec_step(counter, CounterInstructions::Update(v)) == v,
        spec_step(counter, CounterInstructions::Update(v)) == spec_step(
            other,
            CounterInstructions::Update(v),
        ),
{
}

/// Process one invocation: decode the instruction, read the record from
/// `state`, apply the command, and write the result back into `state` in
/// place. Fails with `InvalidInstruction` exactly when the instruction
/// buffer is malformed (and before touching any state), and with
/// `MalformedState` exactly when the slot is shorter than the record; in
/// either failure the slot is left unchanged.
pub fn process(state: &mut Vec<u8>, instruction_data: &[u8]) -> (r: Result<(), CounterError>)
    ensures
        !spec_decode_ok(instruction_data@) ==> {
            &&& r == Err::<(), CounterError>(CounterError::InvalidInstruction)
            &&& final(state)@ == old(state)@
        },
        spec_decode_ok(instruction_data@) && !spec_slot_ok(old(state)@) ==> {
            &&& r == Err::<(), CounterError>(CounterError::MalformedState)
            &&& final(state)@ == old(state)@
        },
        spec_decode_ok(instruction_data@) && spec_slot_ok(old(state)@) ==> {
            &&& r == Ok::<(), CounterError>(())
            &&& final(state)@ == spec_store(
                old(state)@,
                spec_step(spec_stored_counter(old(state)@), spec_decode(instruction_data@)),
            )
        },
{
    let instruction = match CounterInstructions::decode(instruction_data) {
        Ok(instruction) => instruction,
        Err(e) => { return Err(e); },
    };
    let mut account = match CounterAccount::try_from_slice(state.as_slice()) {
        Ok(account) => account,
        Err(e) => { return Err(e); },
    };
    account.apply(&instruction);
    account.serialize(state)
}

} // verus!
