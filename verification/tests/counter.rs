use counter_program::CounterError;
use counter_program::engine::process;
use counter_program::instructions::CounterInstructions;
use counter_program::state::CounterAccount;

fn le(v: u32) -> [u8; 4] {
    [v as u8, (v >> 8) as u8, (v >> 16) as u8, (v >> 24) as u8]
}

fn instruction(tag: u8, amount: u32) -> Vec<u8> {
    let mut data = vec![tag];
    data.extend_from_slice(&le(amount));
    data
}

fn stored(state: &[u8]) -> u32 {
    CounterAccount::try_from_slice(state).unwrap().counter
}

#[test]
fn test_counter() {
    let mut data = vec![0u8; 4];

    let increment_instruction_data = instruction(0, 1);
    let decrement_instruction_data = instruction(1, 1);
    let update_instruction_data = instruction(2, 33);
    let reset_instruction_data = vec![3u8];

    process(&mut data, &increment_instruction_data).unwrap();
    assert_eq!(stored(&data), 1);

    process(&mut data, &decrement_instruction_data).unwrap();
    assert_eq!(stored(&data), 0);

    process(&mut data, &update_instruction_data).unwrap();
    assert_eq!(stored(&data), 33);

    process(&mut data, &reset_instruction_data).unwrap();
    assert_eq!(stored(&data), 0);
}

#[test]
fn decode_unknown_tag_fails() {
    let r = CounterInstructions::decode(&[4]);
    assert_eq!(r, Err(CounterError::InvalidInstruction));
    let r = CounterInstructions::decode(&[255, 1, 2, 3, 4]);
    assert_eq!(r, Err(CounterError::InvalidInstruction));
}

#[test]
fn decode_truncated_payload_fails() {
    assert_eq!(CounterInstructions::decode(&[0]), Err(CounterError::InvalidInstruction));
    assert_eq!(CounterInstructions::decode(&[1, 7]), Err(CounterError::InvalidInstruction));
    assert_eq!(CounterInstructions::decode(&[2, 1, 2, 3]), Err(CounterError::InvalidInstruction));
}

#[test]
fn decode_empty_buffer_fails() {
    assert_eq!(CounterInstructions::decode(&[]), Err(CounterError::InvalidInstruction));
}

#[test]
fn decode_known_tags() {
    assert_eq!(
        CounterInstructions::decode(&instruction(0, 258)),
        Ok(CounterInstructions::Increment(258))
    );
    assert_eq!(
        CounterInstructions::decode(&instruction(1, 7)),
        Ok(CounterInstructions::Decrement(7))
    );
    assert_eq!(
        CounterInstructions::decode(&instruction(2, u32::MAX)),
        Ok(CounterInstructions::Update(u32::MAX))
    );
    assert_eq!(CounterInstructions::decode(&[3]), Ok(CounterInstructions::Reset));
}

#[test]
fn decode_ignores_trailing_bytes() {
    assert_eq!(CounterInstructions::decode(&[3, 9, 9]), Ok(CounterInstructions::Reset));
    assert_eq!(
        CounterInstructions::decode(&[0, 5, 0, 0, 0, 42]),
        Ok(CounterInstructions::Increment(5))
    );
}

#[test]
fn serialize_round_trip() {
    for v in [0u32, 1, 33, 0xDEAD_BEEF, u32::MAX] {
        let account = CounterAccount { counter: v };
        let mut slot = vec![0u8; 4];
        account.serialize(&mut slot).unwrap();
        assert_eq!(stored(&slot), v);
    }
}

#[test]
fn zero_initialized_slot_reads_as_zero() {
    assert_eq!(stored(&[0, 0, 0, 0]), 0);
    assert_eq!(stored(&[0, 0, 0, 0, 0, 0, 0]), 0);
}

#[test]
fn deserialize_is_little_endian() {
    assert_eq!(stored(&[2, 1, 0, 0]), 258);
    assert_eq!(stored(&[0x78, 0x56, 0x34, 0x12]), 0x1234_5678);
}

#[test]
fn deserialize_short_slot_fails() {
    assert_eq!(CounterAccount::try_from_slice(&[]), Err(CounterError::MalformedState));
    assert_eq!(CounterAccount::try_from_slice(&[1, 2, 3]), Err(CounterError::MalformedState));
}

#[test]
fn serialize_short_slot_fails() {
    let account = CounterAccount { counter: 5 };
    let mut slot = vec![0u8; 3];
    assert_eq!(account.serialize(&mut slot), Err(CounterError::StorageWriteFailure));
    assert_eq!(slot, vec![0u8; 3]);
}

#[test]
fn serialize_leaves_trailing_bytes_untouched() {
    let account = CounterAccount { counter: 33 };
    let mut slot = vec![7u8, 7, 7, 7, 9, 8];
    account.serialize(&mut slot).unwrap();
    assert_eq!(slot, vec![33, 0, 0, 0, 9, 8]);
}

#[test]
fn increment_zero_is_no_op() {
    let mut account = CounterAccount { counter: 42 };
    account.apply(&CounterInstructions::Increment(0));
    assert_eq!(account.counter, 42);
}

#[test]
fn decrement_zero_is_no_op() {
    let mut account = CounterAccount { counter: 42 };
    account.apply(&CounterInstructions::Decrement(0));
    assert_eq!(account.counter, 42);
}

#[test]
fn update_to_current_is_no_op() {
    let mut account = CounterAccount { counter: 42 };
    account.apply(&CounterInstructions::Update(42));
    assert_eq!(account.counter, 42);
}

#[test]
fn decrement_floors_at_zero() {
    let cases: [(u32, u32, u32); 5] = [
        (7, 5, 2),
        (5, 5, 0),
        (5, 7, 0),
        (0, 1, 0),
        (u32::MAX, u32::MAX, 0),
    ];
    for (counter, n, expected) in cases {
        let mut account = CounterAccount { counter };
        account.apply(&CounterInstructions::Decrement(n));
        assert_eq!(account.counter, expected);
    }
}

#[test]
fn reset_always_yields_zero() {
    for counter in [0u32, 1, 33, u32::MAX] {
        let mut account = CounterAccount { counter };
        account.apply(&CounterInstructions::Reset);
        assert_eq!(account.counter, 0);
    }
}

#[test]
fn update_always_replaces() {
    for counter in [0u32, 1, 33, u32::MAX] {
        let mut account = CounterAccount { counter };
        account.apply(&CounterInstructions::Update(17));
        assert_eq!(account.counter, 17);
    }
}

#[test]
fn increment_wraps_at_fixed_width() {
    let mut account = CounterAccount { counter: u32::MAX };
    account.apply(&CounterInstructions::Increment(1));
    assert_eq!(account.counter, 0);

    let mut account = CounterAccount { counter: u32::MAX };
    account.apply(&CounterInstructions::Increment(5));
    assert_eq!(account.counter, 4);
}

#[test]
fn process_invalid_instruction_leaves_state_unchanged() {
    let mut data = vec![1u8, 2, 3, 4];
    let before = data.clone();
    assert_eq!(process(&mut data, &[4]), Err(CounterError::InvalidInstruction));
    assert_eq!(data, before);
    assert_eq!(process(&mut data, &[0]), Err(CounterError::InvalidInstruction));
    assert_eq!(data, before);
}

#[test]
fn process_short_state_fails() {
    let mut data = vec![1u8, 2];
    let before = data.clone();
    assert_eq!(process(&mut data, &instruction(0, 1)), Err(CounterError::MalformedState));
    assert_eq!(data, before);
}

#[test]
fn process_preserves_trailing_bytes() {
    let mut data = vec![0u8, 0, 0, 0, 5, 6];
    process(&mut data, &instruction(2, 33)).unwrap();
    assert_eq!(data, vec![33, 0, 0, 0, 5, 6]);
}
