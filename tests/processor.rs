use first_sol::calc::{calculate, divide_instruction, increment_instruction};
use first_sol::instructions::handle_instructions;
use first_sol::processor::process_instruction;
use first_sol::state::{Account, AccountData, Address, CalcError, CalcType, InstructionType};

fn create_account() -> (Address, Vec<Account>) {
    let owner = Address { bytes: [42u8; 32] };
    let account = Account { owner, data: vec![0; 1000] };
    (owner, vec![account])
}

fn store(accounts: &mut Vec<Account>, value: u32) {
    let account_data = AccountData { calc_val: value };
    account_data.serialize(&mut accounts[0].data).unwrap();
}

fn run(start: u32, op: CalcType) -> (Result<(), CalcError>, Vec<Account>) {
    let (owner, mut accounts) = create_account();
    store(&mut accounts, start);
    let instruction_data = InstructionType::CalcType(op).try_to_vec();
    let r = process_instruction(&owner, &mut accounts, &instruction_data);
    (r, accounts)
}

fn value_of(accounts: &Vec<Account>) -> u32 {
    AccountData::try_from_slice(&accounts[0].data).unwrap().calc_val
}

#[test]
fn test_increment() {
    let (r, accounts) = run(5, CalcType::Increment(3));
    r.unwrap();
    assert_eq!(value_of(&accounts), 8);
}

#[test]
fn test_decrement() {
    let (r, accounts) = run(5, CalcType::Decrement(3));
    r.unwrap();
    assert_eq!(value_of(&accounts), 2);
}

#[test]
fn test_multiply() {
    let (r, accounts) = run(5, CalcType::Multiply(3));
    r.unwrap();
    assert_eq!(value_of(&accounts), 15);
}

#[test]
fn test_divide() {
    let (r, accounts) = run(15, CalcType::Divide(3));
    r.unwrap();
    assert_eq!(value_of(&accounts), 5);
}

#[test]
fn test_divide_by_zero() {
    let (owner, mut accounts) = create_account();
    store(&mut accounts, 15);
    let before = accounts[0].data.clone();
    let instruction_data = InstructionType::CalcType(CalcType::Divide(0)).try_to_vec();
    let r = process_instruction(&owner, &mut accounts, &instruction_data);
    assert_eq!(r, Err(CalcError::DivisionByZero));
    assert_eq!(accounts[0].data, before);
    assert_eq!(value_of(&accounts), 15);
}

#[test]
fn test_calculator_integration() {
    let (owner, mut accounts) = create_account();
    let instruction_data = InstructionType::CalcType(CalcType::Increment(5)).try_to_vec();
    process_instruction(&owner, &mut accounts, &instruction_data).unwrap();
    assert_eq!(value_of(&accounts), 5);
}

#[test]
fn increment_then_decrement_gives_back_the_bytes() {
    let (owner, mut accounts) = create_account();
    store(&mut accounts, 123_456);
    accounts[0].data[999] = 7;
    let before = accounts[0].data.clone();
    let inc = InstructionType::CalcType(CalcType::Increment(4_000_000)).try_to_vec();
    let dec = InstructionType::CalcType(CalcType::Decrement(4_000_000)).try_to_vec();
    process_instruction(&owner, &mut accounts, &inc).unwrap();
    assert_eq!(value_of(&accounts), 4_123_456);
    process_instruction(&owner, &mut accounts, &dec).unwrap();
    assert_eq!(accounts[0].data, before);
}

#[test]
fn increment_past_the_top_is_refused() {
    let (r, accounts) = run(u32::MAX - 1, CalcType::Increment(2));
    assert_eq!(r, Err(CalcError::ArithmeticOverflow));
    assert_eq!(value_of(&accounts), u32::MAX - 1);
    let (r, accounts) = run(u32::MAX - 1, CalcType::Increment(1));
    r.unwrap();
    assert_eq!(value_of(&accounts), u32::MAX);
}

#[test]
fn decrement_below_zero_is_refused() {
    let (r, accounts) = run(3, CalcType::Decrement(4));
    assert_eq!(r, Err(CalcError::ArithmeticOverflow));
    assert_eq!(value_of(&accounts), 3);
    let (r, accounts) = run(3, CalcType::Decrement(3));
    r.unwrap();
    assert_eq!(value_of(&accounts), 0);
}

#[test]
fn multiply_past_the_top_is_refused() {
    let (r, accounts) = run(65_536, CalcType::Multiply(65_536));
    assert_eq!(r, Err(CalcError::ArithmeticOverflow));
    assert_eq!(value_of(&accounts), 65_536);
    let (r, accounts) = run(65_535, CalcType::Multiply(65_537));
    r.unwrap();
    assert_eq!(value_of(&accounts), u32::MAX);
}

#[test]
fn divide_rounds_down() {
    let (r, accounts) = run(17, CalcType::Divide(5));
    r.unwrap();
    assert_eq!(value_of(&accounts), 3);
}

#[test]
fn foreign_owner_is_refused_before_decoding() {
    let (_, mut accounts) = create_account();
    store(&mut accounts, 9);
    let before = accounts[0].data.clone();
    let other = Address { bytes: [1u8; 32] };
    let garbage = vec![9u8, 9, 9];
    assert_eq!(
        process_instruction(&other, &mut accounts, &garbage),
        Err(CalcError::UnauthorizedAccount)
    );
    let good = InstructionType::CalcType(CalcType::Increment(1)).try_to_vec();
    assert_eq!(
        process_instruction(&other, &mut accounts, &good),
        Err(CalcError::UnauthorizedAccount)
    );
    assert_eq!(accounts[0].data, before);
}

#[test]
fn no_account_is_refused() {
    let owner = Address { bytes: [42u8; 32] };
    let mut accounts: Vec<Account> = Vec::new();
    let ix = InstructionType::CalcType(CalcType::Increment(1)).try_to_vec();
    assert_eq!(
        process_instruction(&owner, &mut accounts, &ix),
        Err(CalcError::MissingAccount)
    );
}

#[test]
fn unknown_tags_are_malformed() {
    let (owner, mut accounts) = create_account();
    store(&mut accounts, 9);
    let before = accounts[0].data.clone();
    for bad in [vec![0u8, 4, 1, 0, 0, 0], vec![1u8, 0, 1, 0, 0, 0], vec![0u8, 255, 1, 0, 0, 0]] {
        assert_eq!(
            process_instruction(&owner, &mut accounts, &bad),
            Err(CalcError::MalformedInstruction)
        );
        assert_eq!(InstructionType::try_from_slice(&bad), Err(CalcError::MalformedInstruction));
    }
    assert_eq!(accounts[0].data, before);
}

#[test]
fn truncated_or_padded_instructions_are_malformed() {
    for bad in [vec![], vec![0u8], vec![0u8, 0], vec![0u8, 0, 1, 0, 0], vec![0u8, 0, 1, 0, 0, 0, 0]] {
        assert_eq!(InstructionType::try_from_slice(&bad), Err(CalcError::MalformedInstruction));
    }
}

#[test]
fn envelope_bytes_are_exact() {
    let ix = InstructionType::CalcType(CalcType::Multiply(0x0102_0304));
    assert_eq!(ix.try_to_vec(), vec![0u8, 2, 4, 3, 2, 1]);
    assert_eq!(InstructionType::CalcType(CalcType::Increment(3)).try_to_vec(), vec![0u8, 0, 3, 0, 0, 0]);
    assert_eq!(InstructionType::CalcType(CalcType::Decrement(3)).try_to_vec(), vec![0u8, 1, 3, 0, 0, 0]);
    assert_eq!(InstructionType::CalcType(CalcType::Divide(256)).try_to_vec(), vec![0u8, 3, 0, 1, 0, 0]);
    for ix in [
        InstructionType::CalcType(CalcType::Increment(7)),
        InstructionType::CalcType(CalcType::Decrement(u32::MAX)),
        InstructionType::CalcType(CalcType::Multiply(0x0102_0304)),
        InstructionType::CalcType(CalcType::Divide(0)),
    ] {
        assert_eq!(InstructionType::try_from_slice(&ix.try_to_vec()), Ok(ix));
    }
}

#[test]
fn record_reads_little_endian_and_ignores_the_tail() {
    let data = vec![1u8, 2, 3, 4, 0xff, 0xff];
    assert_eq!(AccountData::try_from_slice(&data), Ok(AccountData { calc_val: 0x0403_0201 }));
    assert_eq!(AccountData::try_from_slice(&[1u8, 2, 3]), Err(CalcError::MalformedState));
    assert_eq!(AccountData::try_from_slice(&[]), Err(CalcError::MalformedState));
}

#[test]
fn record_round_trip_keeps_the_bytes() {
    let mut data = vec![0x78u8, 0x56, 0x34, 0x12, 9, 8, 7];
    let before = data.clone();
    let record = AccountData::try_from_slice(&data).unwrap();
    record.serialize(&mut data).unwrap();
    assert_eq!(data, before);
    assert_eq!(AccountData::try_from_slice(&data), Ok(record));
    let mut other = vec![0u8; 4];
    record.serialize(&mut other).unwrap();
    assert_eq!(other, vec![0x78u8, 0x56, 0x34, 0x12]);
}

#[test]
fn serialize_refuses_a_short_buffer() {
    let mut data = vec![1u8, 2, 3];
    assert_eq!(AccountData { calc_val: 5 }.serialize(&mut data), Err(CalcError::MalformedState));
    assert_eq!(data, vec![1u8, 2, 3]);
}

#[test]
fn short_storage_is_malformed_state() {
    let owner = Address { bytes: [42u8; 32] };
    let mut accounts = vec![Account { owner, data: vec![5u8, 0, 0] }];
    let ix = InstructionType::CalcType(CalcType::Increment(1)).try_to_vec();
    assert_eq!(process_instruction(&owner, &mut accounts, &ix), Err(CalcError::MalformedState));
    assert_eq!(accounts[0].data, vec![5u8, 0, 0]);
}

#[test]
fn only_the_first_account_changes() {
    let owner = Address { bytes: [42u8; 32] };
    let mut accounts = vec![
        Account { owner, data: vec![5u8, 0, 0, 0] },
        Account { owner, data: vec![5u8, 0, 0, 0] },
    ];
    let ix = InstructionType::CalcType(CalcType::Increment(1)).try_to_vec();
    process_instruction(&owner, &mut accounts, &ix).unwrap();
    assert_eq!(accounts[0].data, vec![6u8, 0, 0, 0]);
    assert_eq!(accounts[1].data, vec![5u8, 0, 0, 0]);
}

#[test]
fn handlers_and_dispatcher_agree_with_calculate() {
    let owner = Address { bytes: [3u8; 32] };
    let mut acc = Account { owner, data: vec![10u8, 0, 0, 0] };
    increment_instruction(&mut acc, 5).unwrap();
    assert_eq!(acc.data, vec![15u8, 0, 0, 0]);
    assert_eq!(divide_instruction(&mut acc, 0), Err(CalcError::DivisionByZero));
    handle_instructions(InstructionType::CalcType(CalcType::Divide(4)), &mut acc).unwrap();
    assert_eq!(acc.data, vec![3u8, 0, 0, 0]);
    assert_eq!(calculate(15, CalcType::Divide(4)), Ok(3));
    assert_eq!(calculate(0, CalcType::Divide(0)), Err(CalcError::DivisionByZero));
    assert_eq!(calculate(7, CalcType::Multiply(6)), Ok(42));
}

#[test]
fn addresses_compare_by_every_byte() {
    let a = Address { bytes: [5u8; 32] };
    let mut bytes = [5u8; 32];
    assert!(a.same_as(&Address { bytes }));
    bytes[31] = 6;
    assert!(!a.same_as(&Address { bytes }));
}
