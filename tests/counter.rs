use counter_program::processor::{
    initialize_space, process_decrement_counter, process_increment_counter,
    process_initialize_counter, process_instruction, Account,
};
use counter_program::state::ACCOUNT_SPACE;
use counter_program::{CounterAccount, CounterError, CounterInstruction};

const PROGRAM: [u8; 32] = [7u8; 32];
const OTHER: [u8; 32] = [9u8; 32];

fn fresh_accounts() -> Vec<Account> {
    vec![
        Account { owner: [0u8; 32], data: Vec::new() },
        Account { owner: [0u8; 32], data: Vec::new() },
        Account { owner: [0u8; 32], data: Vec::new() },
    ]
}

fn run(accounts: &mut Vec<Account>, ix: CounterInstruction) -> Result<(), CounterError> {
    let data = ix.to_bytes();
    process_instruction(&PROGRAM, accounts, &data)
}

fn count_of(account: &Account) -> u64 {
    CounterAccount::try_from_slice(&account.data).expect("well-formed record").count
}

#[test]
fn test_counter_program() {
    let mut accounts = fresh_accounts();

    let r = run(&mut accounts, CounterInstruction::InitializeCounter { initial_value: 42 });
    assert!(r.is_ok(), "Initialize transaction should succeed");
    assert_eq!(count_of(&accounts[0]), 42);

    let r = run(&mut accounts, CounterInstruction::IncrementCounter { step: None });
    assert!(r.is_ok(), "Increment transaction should succeed");
    assert_eq!(count_of(&accounts[0]), 43);

    let r = run(&mut accounts, CounterInstruction::IncrementCounter { step: Some(5) });
    assert!(r.is_ok(), "Increment by 5 transaction should succeed");
    assert_eq!(count_of(&accounts[0]), 48);

    let r = run(&mut accounts, CounterInstruction::DecrementCounter { step: None });
    assert!(r.is_ok(), "Decrement transaction should succeed");
    assert_eq!(count_of(&accounts[0]), 47);

    let r = run(&mut accounts, CounterInstruction::DecrementCounter { step: Some(3) });
    assert!(r.is_ok(), "Decrement by 3 transaction should succeed");
    assert_eq!(count_of(&accounts[0]), 44);

    let r = run(&mut accounts, CounterInstruction::DecrementCounter { step: Some(44) });
    assert!(r.is_ok(), "Reset transaction should succeed");

    let r = run(&mut accounts, CounterInstruction::DecrementCounter { step: Some(1) });
    assert!(r.is_err(), "Decrement below zero should fail");
    assert_eq!(count_of(&accounts[0]), 0);
}

#[test]
fn instruction_bytes_are_exact() {
    assert_eq!(
        CounterInstruction::InitializeCounter { initial_value: 0x0102 }.to_bytes(),
        vec![0, 2, 1, 0, 0, 0, 0, 0, 0]
    );
    assert_eq!(CounterInstruction::IncrementCounter { step: None }.to_bytes(), vec![1, 0]);
    assert_eq!(
        CounterInstruction::IncrementCounter { step: Some(5) }.to_bytes(),
        vec![1, 1, 5, 0, 0, 0, 0, 0, 0, 0]
    );
    assert_eq!(
        CounterInstruction::DecrementCounter { step: Some(u64::MAX) }.to_bytes(),
        vec![2, 1, 255, 255, 255, 255, 255, 255, 255, 255]
    );
    assert_eq!(CounterInstruction::DecrementCounter { step: None }.to_bytes(), vec![2, 0]);
}

#[test]
fn instruction_round_trip() {
    let all = vec![
        CounterInstruction::InitializeCounter { initial_value: 0 },
        CounterInstruction::InitializeCounter { initial_value: u64::MAX },
        CounterInstruction::IncrementCounter { step: None },
        CounterInstruction::IncrementCounter { step: Some(0x0807060504030201) },
        CounterInstruction::DecrementCounter { step: None },
        CounterInstruction::DecrementCounter { step: Some(3) },
    ];
    for ix in all {
        assert_eq!(CounterInstruction::try_from_slice(&ix.to_bytes()), Ok(ix));
    }
}

#[test]
fn decode_reads_little_endian_fields() {
    assert_eq!(
        CounterInstruction::try_from_slice(&[0, 1, 2, 3, 4, 5, 6, 7, 8]),
        Ok(CounterInstruction::InitializeCounter { initial_value: 0x0807060504030201 })
    );
    assert_eq!(
        CounterInstruction::try_from_slice(&[2, 1, 3, 0, 0, 0, 0, 0, 0, 0]),
        Ok(CounterInstruction::DecrementCounter { step: Some(3) })
    );
}

#[test]
fn malformed_instructions_are_rejected() {
    let bad: Vec<Vec<u8>> = vec![
        vec![],
        vec![3],
        vec![0, 1, 2, 3],
        vec![0, 1, 2, 3, 4, 5, 6, 7, 8, 9],
        vec![1],
        vec![1, 2],
        vec![1, 0, 0],
        vec![2, 1, 5, 0, 0],
        vec![2, 1, 5, 0, 0, 0, 0, 0, 0, 0, 0],
    ];
    for b in bad {
        assert_eq!(
            CounterInstruction::try_from_slice(&b),
            Err(CounterError::InvalidInstructionData)
        );
    }
}

#[test]
fn account_record_is_eight_little_endian_bytes() {
    assert_eq!(ACCOUNT_SPACE, 8);
    assert_eq!(CounterAccount { count: 0x0102 }.to_bytes(), vec![2, 1, 0, 0, 0, 0, 0, 0]);
    assert_eq!(
        CounterAccount::try_from_slice(&[0, 0, 0, 0, 0, 0, 0, 1]),
        Ok(CounterAccount { count: 1u64 << 56 })
    );
    assert_eq!(
        CounterAccount::try_from_slice(&[1, 2, 3]),
        Err(CounterError::InvalidAccountData)
    );
}

#[test]
fn initialize_stores_value_and_owner() {
    let mut counter = Account { owner: [0u8; 32], data: Vec::new() };
    assert_eq!(process_initialize_counter(&PROGRAM, &mut counter, u64::MAX), Ok(()));
    assert_eq!(counter.owner, PROGRAM);
    assert_eq!(counter.data, vec![255u8; 8]);
}

#[test]
fn initialize_space_checks_emptiness() {
    assert_eq!(initialize_space(0), Ok(8));
    assert_eq!(initialize_space(8), Err(CounterError::AccountAlreadyInitialized));
}

#[test]
fn double_initialize_fails_and_keeps_value() {
    let mut accounts = fresh_accounts();
    assert_eq!(run(&mut accounts, CounterInstruction::InitializeCounter { initial_value: 42 }), Ok(()));
    assert_eq!(
        run(&mut accounts, CounterInstruction::InitializeCounter { initial_value: 7 }),
        Err(CounterError::AccountAlreadyInitialized)
    );
    assert_eq!(count_of(&accounts[0]), 42);
}

#[test]
fn increment_default_adds_one() {
    let mut counter = Account { owner: PROGRAM, data: CounterAccount { count: 9 }.to_bytes() };
    assert_eq!(process_increment_counter(&PROGRAM, &mut counter, None), Ok(()));
    assert_eq!(count_of(&counter), 10);
}

#[test]
fn increment_to_max_then_overflow() {
    let mut counter =
        Account { owner: PROGRAM, data: CounterAccount { count: u64::MAX - 5 }.to_bytes() };
    assert_eq!(process_increment_counter(&PROGRAM, &mut counter, Some(5)), Ok(()));
    assert_eq!(count_of(&counter), u64::MAX);
    let before = counter.data.clone();
    assert_eq!(
        process_increment_counter(&PROGRAM, &mut counter, None),
        Err(CounterError::InvalidAccountData)
    );
    assert_eq!(counter.data, before);
}

#[test]
fn decrement_underflow_fails_unchanged() {
    let mut counter = Account { owner: PROGRAM, data: CounterAccount { count: 3 }.to_bytes() };
    assert_eq!(
        process_decrement_counter(&PROGRAM, &mut counter, Some(4)),
        Err(CounterError::InvalidAccountData)
    );
    assert_eq!(count_of(&counter), 3);
    assert_eq!(process_decrement_counter(&PROGRAM, &mut counter, Some(3)), Ok(()));
    assert_eq!(count_of(&counter), 0);
}

#[test]
fn wrong_owner_is_rejected() {
    let mut counter = Account { owner: OTHER, data: CounterAccount { count: 3 }.to_bytes() };
    assert_eq!(
        process_increment_counter(&PROGRAM, &mut counter, None),
        Err(CounterError::IncorrectProgramId)
    );
    assert_eq!(
        process_decrement_counter(&PROGRAM, &mut counter, None),
        Err(CounterError::IncorrectProgramId)
    );
    assert_eq!(count_of(&counter), 3);
    assert_eq!(counter.owner, OTHER);
}

#[test]
fn uninitialized_account_is_rejected() {
    let mut counter = Account { owner: PROGRAM, data: Vec::new() };
    assert_eq!(
        process_increment_counter(&PROGRAM, &mut counter, Some(1)),
        Err(CounterError::UninitializedAccount)
    );
    assert_eq!(
        process_decrement_counter(&PROGRAM, &mut counter, Some(1)),
        Err(CounterError::UninitializedAccount)
    );
    assert!(counter.data.is_empty());
}

#[test]
fn malformed_record_is_rejected() {
    let mut counter = Account { owner: PROGRAM, data: vec![1, 2, 3, 4, 5, 6, 7, 8, 9] };
    assert_eq!(
        process_increment_counter(&PROGRAM, &mut counter, None),
        Err(CounterError::InvalidAccountData)
    );
    assert_eq!(counter.data, vec![1, 2, 3, 4, 5, 6, 7, 8, 9]);
}

#[test]
fn too_few_accounts_are_rejected() {
    let mut accounts = vec![Account { owner: [0u8; 32], data: Vec::new() }];
    assert_eq!(
        run(&mut accounts, CounterInstruction::InitializeCounter { initial_value: 1 }),
        Err(CounterError::NotEnoughAccountKeys)
    );
    assert!(accounts[0].data.is_empty());
    let mut none: Vec<Account> = Vec::new();
    assert_eq!(
        run(&mut none, CounterInstruction::IncrementCounter { step: None }),
        Err(CounterError::NotEnoughAccountKeys)
    );
}

#[test]
fn bad_instruction_data_leaves_accounts() {
    let mut accounts = fresh_accounts();
    assert_eq!(
        process_instruction(&PROGRAM, &mut accounts, &[5, 0]),
        Err(CounterError::InvalidInstructionData)
    );
    assert!(accounts[0].data.is_empty());
}

#[test]
fn dispatcher_touches_only_the_counter() {
    let mut accounts = fresh_accounts();
    accounts[1].data = vec![1, 2];
    assert_eq!(run(&mut accounts, CounterInstruction::InitializeCounter { initial_value: 5 }), Ok(()));
    assert_eq!(accounts.len(), 3);
    assert_eq!(accounts[0].owner, PROGRAM);
    assert_eq!(accounts[1].data, vec![1, 2]);
    assert_eq!(accounts[1].owner, [0u8; 32]);
    assert!(accounts[2].data.is_empty());
}
