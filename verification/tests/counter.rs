use solana_program::pubkey::Pubkey;
use solana_programs::counter::{
    decode_instruction, increment, initialize, process_instruction, AccountView, Counter, CounterEffect,
    CounterError, CounterInstruction,
};

const PROGRAM: [u8; 32] = [42u8; 32];
const AUTHORITY: [u8; 32] = [5u8; 32];

fn vault_pda() -> ([u8; 32], u8) {
    let (key, bump) = Pubkey::find_program_address(&[b"vault"], &Pubkey::new_from_array(PROGRAM));
    (key.to_bytes(), bump)
}

fn account(key: [u8; 32], owner: [u8; 32], is_signer: bool, is_writable: bool, lamports: u64, data: Vec<u8>) -> AccountView {
    AccountView { key, owner, is_signer, is_writable, lamports, data }
}

fn stored(authority: [u8; 32], count: u64) -> Vec<u8> {
    let mut v = authority.to_vec();
    v.extend_from_slice(&count.to_le_bytes());
    v
}

fn init_accounts() -> Vec<AccountView> {
    let (pda, _) = vault_pda();
    vec![
        account(pda, [0u8; 32], false, true, 0, vec![]),
        account(AUTHORITY, [0u8; 32], true, true, 1_000_000, vec![]),
        account([0u8; 32], [0u8; 32], false, false, 1, vec![]),
    ]
}

fn counter_accounts(data: Vec<u8>) -> Vec<AccountView> {
    let (pda, _) = vault_pda();
    vec![account(pda, PROGRAM, false, true, 1_000, data), account(AUTHORITY, [0u8; 32], true, false, 5, vec![])]
}

#[test]
fn instruction_bytes_select_the_instruction() {
    assert_eq!(decode_instruction(&[0]), Ok(CounterInstruction::Initialize));
    assert_eq!(decode_instruction(&[1]), Ok(CounterInstruction::Increment));
    assert_eq!(decode_instruction(&[2]), Err(CounterError::InvalidInstructionData));
    assert_eq!(decode_instruction(&[]), Err(CounterError::InvalidInstructionData));
    assert_eq!(decode_instruction(&[0, 0]), Err(CounterError::InvalidInstructionData));
    match process_instruction(&PROGRAM, &init_accounts(), &[9], 100) {
        Some(Err(e)) => assert_eq!(e, CounterError::InvalidInstructionData),
        _ => panic!("unknown instruction must be refused"),
    }
}

#[test]
fn initialize_creates_a_zero_counter() {
    let (pda, bump) = vault_pda();
    let rent = solana_program::rent::Rent::default().minimum_balance(Counter::LEN);
    match process_instruction(&PROGRAM, &init_accounts(), &[0], rent) {
        Some(Ok(CounterEffect::Created(c))) => {
            assert_eq!(c.payer, AUTHORITY);
            assert_eq!(c.counter, pda);
            assert_eq!(c.lamports, rent);
            assert_eq!(c.space, 40);
            assert_eq!(c.owner, PROGRAM);
            assert_eq!(c.bump, bump);
            assert_eq!(c.data, stored(AUTHORITY, 0));
        }
        _ => panic!("initialize must succeed"),
    }
}

#[test]
fn initialize_checks_in_order() {
    let (pda, bump) = vault_pda();
    let run = |accs: &Vec<AccountView>| initialize(&PROGRAM, accs, 10, &pda, bump).err();
    let mut a = init_accounts();
    a.truncate(2);
    assert_eq!(run(&a), Some(CounterError::NotEnoughAccountKeys));
    let mut a = init_accounts();
    a[2].key = [1u8; 32];
    assert_eq!(run(&a), Some(CounterError::IncorrectProgramId));
    let mut a = init_accounts();
    a[1].is_signer = false;
    assert_eq!(run(&a), Some(CounterError::MissingRequiredSignature));
    let mut a = init_accounts();
    a[1].is_writable = false;
    assert_eq!(run(&a), Some(CounterError::InvalidArgument));
    let mut a = init_accounts();
    a[0].is_writable = false;
    assert_eq!(run(&a), Some(CounterError::InvalidArgument));
    let mut a = init_accounts();
    a[0].owner = PROGRAM;
    assert_eq!(run(&a), Some(CounterError::IllegalOwner));
    let mut a = init_accounts();
    a[0].key = [8u8; 32];
    assert_eq!(run(&a), Some(CounterError::InvalidSeeds));
    let mut a = init_accounts();
    a[0].lamports = 1;
    assert_eq!(run(&a), Some(CounterError::AccountAlreadyInitialized));
    let mut a = init_accounts();
    a[0].data = vec![0u8; 40];
    assert_eq!(run(&a), Some(CounterError::AccountAlreadyInitialized));
}

#[test]
fn increment_adds_one() {
    match process_instruction(&PROGRAM, &counter_accounts(stored(AUTHORITY, 41)), &[1], 0) {
        Some(Ok(CounterEffect::Updated(data))) => assert_eq!(data, stored(AUTHORITY, 42)),
        _ => panic!("increment must succeed"),
    }
}

#[test]
fn increment_refusals() {
    let (pda, _) = vault_pda();
    let run = |accs: &Vec<AccountView>| increment(&PROGRAM, accs, &pda).err();
    let mut a = counter_accounts(stored(AUTHORITY, 1));
    a.truncate(1);
    assert_eq!(run(&a), Some(CounterError::NotEnoughAccountKeys));
    let mut a = counter_accounts(stored(AUTHORITY, 1));
    a[0].owner = [0u8; 32];
    assert_eq!(run(&a), Some(CounterError::InvalidAccountOwner));
    let mut a = counter_accounts(stored(AUTHORITY, 1));
    a[0].is_writable = false;
    assert_eq!(run(&a), Some(CounterError::InvalidArgument));
    let mut a = counter_accounts(stored(AUTHORITY, 1));
    a[1].is_signer = false;
    assert_eq!(run(&a), Some(CounterError::MissingRequiredSignature));
    let mut a = counter_accounts(stored(AUTHORITY, 1));
    a[0].key = [8u8; 32];
    assert_eq!(run(&a), Some(CounterError::InvalidSeeds));
    let mut short = stored(AUTHORITY, 1);
    short.pop();
    assert_eq!(run(&counter_accounts(short)), Some(CounterError::InvalidAccountData));
    let mut long = stored(AUTHORITY, 1);
    long.push(0);
    assert_eq!(run(&counter_accounts(long)), Some(CounterError::InvalidAccountData));
    assert_eq!(run(&counter_accounts(stored([6u8; 32], 1))), Some(CounterError::IncorrectAuthority));
    assert_eq!(run(&counter_accounts(stored(AUTHORITY, u64::MAX))), Some(CounterError::ArithmeticOverflow));
}

#[test]
fn initialize_then_increment_counts_from_zero() {
    let rent = 1_000;
    let created = match process_instruction(&PROGRAM, &init_accounts(), &[0], rent) {
        Some(Ok(CounterEffect::Created(c))) => c,
        _ => panic!("initialize must succeed"),
    };
    let mut data = created.data;
    for expected in 1..=3u64 {
        data = match process_instruction(&PROGRAM, &counter_accounts(data), &[1], rent) {
            Some(Ok(CounterEffect::Updated(d))) => d,
            _ => panic!("increment must succeed"),
        };
        assert_eq!(data, stored(AUTHORITY, expected));
    }
}

#[test]
fn counter_signs_with_vault_and_bump() {
    let (_, bump) = vault_pda();
    match process_instruction(&PROGRAM, &init_accounts(), &[0], 7) {
        Some(Ok(CounterEffect::Created(c))) => assert_eq!(c.signer_seeds, vec![b"vault".to_vec(), vec![bump]]),
        _ => panic!("initialize must succeed"),
    }
}

#[test]
fn account_checks_come_before_the_address() {
    // A counter account that fails an early check is refused with that
    // check's error, whatever address it has.
    let mut a = init_accounts();
    a[0].key = [8u8; 32];
    a[1].is_signer = false;
    match process_instruction(&PROGRAM, &a, &[0], 7) {
        Some(Err(e)) => assert_eq!(e, CounterError::MissingRequiredSignature),
        _ => panic!("must be refused"),
    }
    let mut a = counter_accounts(stored(AUTHORITY, 1));
    a[0].key = [8u8; 32];
    match process_instruction(&PROGRAM, &a, &[1], 7) {
        Some(Err(e)) => assert_eq!(e, CounterError::InvalidSeeds),
        _ => panic!("must be refused"),
    }
}

#[test]
fn initialized_counter_cannot_be_reset() {
    let rent = 1_000;
    let created = match process_instruction(&PROGRAM, &init_accounts(), &[0], rent) {
        Some(Ok(CounterEffect::Created(c))) => c,
        _ => panic!("initialize must succeed"),
    };
    // The created account now belongs to the program and holds data.
    let mut a = init_accounts();
    a[0].owner = created.owner;
    a[0].lamports = created.lamports;
    a[0].data = created.data;
    match process_instruction(&PROGRAM, &a, &[0], rent) {
        Some(Err(e)) => assert_eq!(e, CounterError::IllegalOwner),
        _ => panic!("a second initialize must be refused"),
    }
}
