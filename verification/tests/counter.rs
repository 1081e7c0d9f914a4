//! End-to-end and component tests of the stateful counter processor.

use counter_program::account::{
    apply_increment, apply_initialize, build_create_request, provisioning_outcome,
    require_accounts, Account, INCREMENT_ACCOUNTS, INITIALIZE_ACCOUNTS,
};
use counter_program::error::ProcessError;
use counter_program::identity::Identity;
use counter_program::instruction::CounterInstruction;
use counter_program::state::CounterAccount;

/// The full counter lifecycle against an in-memory account: initialize a
/// fresh record with 42, read it back, then increment it to 43.
#[test]
fn test_counter_program() {
    let program_id = Identity::new(11, 22, 33, 44);
    let payer = Identity::new(1, 1, 1, 1);
    let counter_address = Identity::new(2, 2, 2, 2);
    let initial_value: u64 = 42;

    // Initialize: encode the instruction as a caller would, decode it as the
    // dispatcher does, and route it.
    let init_instruction_data =
        CounterInstruction::InitializeCounter { initial_value }.encode();
    let instruction = CounterInstruction::decode(&init_instruction_data)
        .expect("Failed to decode instruction");
    assert_eq!(
        instruction,
        CounterInstruction::InitializeCounter { initial_value }
    );

    // Validate the account list and provision the record's storage through
    // the (here: successful, in-memory) creation service.
    require_accounts(3, INITIALIZE_ACCOUNTS).expect("three accounts are enough");
    let request = build_create_request(&counter_address, &payer, 890_880, &program_id);
    assert_eq!(request.space, 8);
    assert_eq!(request.owner, program_id);
    provisioning_outcome(true).expect("creation succeeded");
    let mut counter_account = Account {
        owner: program_id,
        data: vec![0u8; request.space as usize],
    };

    apply_initialize(&mut counter_account, initial_value)
        .expect("Initialize transaction should succeed");
    let counter = CounterAccount::decode(&counter_account.data)
        .expect("Failed to deserialize counter data");
    assert_eq!(counter.count, 42);

    // Increment.
    let increment_data = CounterInstruction::IncrementCounter.encode();
    let instruction =
        CounterInstruction::decode(&increment_data).expect("Failed to decode instruction");
    assert_eq!(instruction, CounterInstruction::IncrementCounter);
    require_accounts(1, INCREMENT_ACCOUNTS).expect("one account is enough");
    let new_count = apply_increment(&program_id, &mut counter_account)
        .expect("Increment transaction should succeed");
    assert_eq!(new_count, 43);
    let counter = CounterAccount::decode(&counter_account.data)
        .expect("Failed to deserialize counter data");
    assert_eq!(counter.count, 43);
}

/// Encoding then decoding a record yields the record back, across the range.
#[test]
fn test_record_round_trip() {
    for count in [0u64, 1, 42, 255, 256, 0x0123_4567_89ab_cdef, u64::MAX] {
        let record = CounterAccount { count };
        let bytes = record.encode();
        assert_eq!(bytes.len(), 8);
        let back = CounterAccount::decode(&bytes).expect("an 8-byte buffer is valid");
        assert_eq!(back, record);
    }
}

/// The record layout is bit-exact little-endian, as an external reader of
/// ledger storage sees it.
#[test]
fn test_record_layout_exact() {
    let bytes = CounterAccount { count: 0x0102_0304_0506_0708 }.encode();
    assert_eq!(bytes, vec![0x08, 0x07, 0x06, 0x05, 0x04, 0x03, 0x02, 0x01]);
}

/// A buffer shorter than the record cannot represent one.
#[test]
fn test_record_decode_short_buffer() {
    assert_eq!(
        CounterAccount::decode(&[1, 2, 3]),
        Err(ProcessError::MalformedState)
    );
    assert_eq!(CounterAccount::decode(&[]), Err(ProcessError::MalformedState));
}

/// An `InitializeCounter` payload with fewer than 8 trailing bytes is
/// rejected, never defaulted to zero.
#[test]
fn test_decoder_rejects_truncated_payload() {
    assert_eq!(
        CounterInstruction::decode(&[0, 7, 0, 0]),
        Err(ProcessError::InvalidInstruction)
    );
    assert_eq!(
        CounterInstruction::decode(&[0]),
        Err(ProcessError::InvalidInstruction)
    );
    assert_eq!(
        CounterInstruction::decode(&[]),
        Err(ProcessError::InvalidInstruction)
    );
}

/// Trailing bytes and unrecognized tags are rejected as well.
#[test]
fn test_decoder_rejects_malformed_payloads() {
    assert_eq!(
        CounterInstruction::decode(&[0, 1, 2, 3, 4, 5, 6, 7, 8, 9]),
        Err(ProcessError::InvalidInstruction)
    );
    assert_eq!(
        CounterInstruction::decode(&[1, 0]),
        Err(ProcessError::InvalidInstruction)
    );
    assert_eq!(
        CounterInstruction::decode(&[2]),
        Err(ProcessError::InvalidInstruction)
    );
}

/// Instruction payloads round-trip through the wire format.
#[test]
fn test_instruction_round_trip() {
    for instruction in [
        CounterInstruction::InitializeCounter { initial_value: 0 },
        CounterInstruction::InitializeCounter { initial_value: 42 },
        CounterInstruction::InitializeCounter { initial_value: u64::MAX },
        CounterInstruction::IncrementCounter,
    ] {
        let bytes = instruction.encode();
        assert_eq!(CounterInstruction::decode(&bytes), Ok(instruction));
    }
}

/// The record codec writes the same bytes as the reference binary schema for
/// an unsigned 64-bit field.
#[test]
fn test_record_encoding_matches_reference_schema() {
    let encoded = CounterAccount { count: 42 }.encode();
    assert_eq!(encoded, borsh::to_vec(&42u64).expect("serialize"));
    let reread: u64 = borsh::from_slice(&encoded).expect("deserialize");
    assert_eq!(reread, 42);
}

/// The instruction codec writes the same bytes as the reference binary
/// schema: a one-byte variant tag followed by the fields.
#[test]
fn test_instruction_encoding_matches_reference_schema() {
    let init = CounterInstruction::InitializeCounter { initial_value: 42 }.encode();
    assert_eq!(init, borsh::to_vec(&(0u8, 42u64)).expect("serialize"));
    let increment = CounterInstruction::IncrementCounter.encode();
    assert_eq!(increment, borsh::to_vec(&1u8).expect("serialize"));
}

/// Incrementing at the maximum fails with `ArithmeticOverflow` and leaves
/// storage unchanged.
#[test]
fn test_increment_overflow() {
    let program_id = Identity::new(9, 9, 9, 9);
    let mut account = Account {
        owner: program_id,
        data: CounterAccount { count: u64::MAX }.encode(),
    };
    let before = account.data.clone();
    assert_eq!(
        apply_increment(&program_id, &mut account),
        Err(ProcessError::ArithmeticOverflow)
    );
    assert_eq!(account.data, before);
}

/// Incrementing a record whose owning identity differs from the caller's
/// fails with `IncorrectOwner` and performs no write.
#[test]
fn test_ownership_gate() {
    let program_id = Identity::new(9, 9, 9, 9);
    let other = Identity::new(9, 9, 9, 8);
    let mut account = Account {
        owner: other,
        data: CounterAccount { count: 7 }.encode(),
    };
    let before = account.data.clone();
    assert_eq!(
        apply_increment(&program_id, &mut account),
        Err(ProcessError::IncorrectOwner)
    );
    assert_eq!(account.data, before);
}

/// Incrementing storage too short to hold a record fails with
/// `MalformedState` and performs no write.
#[test]
fn test_increment_malformed_state() {
    let program_id = Identity::new(3, 0, 0, 0);
    let mut account = Account { owner: program_id, data: vec![1, 2, 3] };
    assert_eq!(
        apply_increment(&program_id, &mut account),
        Err(ProcessError::MalformedState)
    );
    assert_eq!(account.data, vec![1, 2, 3]);
}

/// Incrementing preserves bytes beyond the record portion of the storage.
#[test]
fn test_increment_preserves_trailing_bytes() {
    let program_id = Identity::new(4, 0, 0, 0);
    let mut data = CounterAccount { count: 10 }.encode();
    data.push(0xAA);
    data.push(0xBB);
    let mut account = Account { owner: program_id, data };
    assert_eq!(apply_increment(&program_id, &mut account), Ok(11));
    let mut expected = CounterAccount { count: 11 }.encode();
    expected.push(0xAA);
    expected.push(0xBB);
    assert_eq!(account.data, expected);
}

/// An initialize call must supply the counter, funding, and system-service
/// accounts.
#[test]
fn test_not_enough_accounts() {
    assert_eq!(
        require_accounts(2, INITIALIZE_ACCOUNTS),
        Err(ProcessError::NotEnoughAccounts)
    );
    assert_eq!(
        require_accounts(0, INCREMENT_ACCOUNTS),
        Err(ProcessError::NotEnoughAccounts)
    );
    assert_eq!(require_accounts(3, INITIALIZE_ACCOUNTS), Ok(()));
}

/// A failed creation call surfaces as `ProvisioningFailed` and aborts the
/// operation; nothing was created.
#[test]
fn test_provisioning_failure() {
    assert_eq!(
        provisioning_outcome(false),
        Err(ProcessError::ProvisioningFailed)
    );
    assert_eq!(provisioning_outcome(true), Ok(()));
}

/// The provisioning request carries exactly what the creation service needs.
#[test]
fn test_create_request_fields() {
    let target = Identity::new(1, 2, 3, 4);
    let funder = Identity::new(5, 6, 7, 8);
    let program_id = Identity::new(9, 10, 11, 12);
    let request = build_create_request(&target, &funder, 12345, &program_id);
    assert_eq!(request.target, target);
    assert_eq!(request.funder, funder);
    assert_eq!(request.lamports, 12345);
    assert_eq!(request.space, 8);
    assert_eq!(request.owner, program_id);
}

/// Initializing storage too short to hold a record is rejected unchanged.
#[test]
fn test_initialize_short_storage() {
    let program_id = Identity::new(2, 0, 0, 0);
    let mut account = Account { owner: program_id, data: vec![0u8; 4] };
    assert_eq!(
        apply_initialize(&mut account, 5),
        Err(ProcessError::MalformedState)
    );
    assert_eq!(account.data, vec![0u8; 4]);
}
