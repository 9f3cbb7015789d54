use gong_de_increase::address::find_counter_address;
use gong_de_increase::error::ProgramError;
use gong_de_increase::processor::{
    plan_initialize, process_close, process_increment, process_initialize, process_reset,
};
use gong_de_increase::{
    complete_initialize, process_instruction, Account, Address, CreateAccount, Step,
};

const INITIALIZE: [u8; 1] = [0];
const INCREMENT: [u8; 1] = [1];
const RESET: [u8; 1] = [2];
const CLOSE: [u8; 1] = [3];

fn address(fill: u8) -> Address {
    Address { bytes: [fill; 32] }
}

fn program() -> Address {
    address(42)
}

fn counter(count: u64, lamports: u64) -> Account {
    Account {
        key: address(1),
        is_signer: false,
        is_writable: true,
        lamports,
        data: count.to_le_bytes().to_vec(),
    }
}

fn user(lamports: u64) -> Account {
    Account { key: address(2), is_signer: true, is_writable: true, lamports, data: Vec::new() }
}

fn system() -> Account {
    Account { key: address(0), is_signer: false, is_writable: false, lamports: 1, data: Vec::new() }
}

fn count_of(account: &Account) -> u64 {
    let mut bytes = [0u8; 8];
    bytes.copy_from_slice(&account.data);
    u64::from_le_bytes(bytes)
}

#[test]
fn increment_adds_one() {
    for n in [0u64, 1, 41, 255, 256, u32::MAX as u64, u64::MAX - 1] {
        let mut accounts = vec![counter(n, 1000)];
        assert_eq!(process_increment(&mut accounts), Ok(()));
        assert_eq!(count_of(&accounts[0]), n + 1);
        assert_eq!(accounts[0].lamports, 1000);
        assert_eq!(accounts[0].key, address(1));
    }
}

#[test]
fn increment_carries_into_the_next_byte() {
    let mut accounts = vec![counter(255, 1000)];
    assert_eq!(process_increment(&mut accounts), Ok(()));
    assert_eq!(accounts[0].data, vec![0, 1, 0, 0, 0, 0, 0, 0]);
}

#[test]
fn increment_stops_at_the_largest_count() {
    let mut accounts = vec![counter(u64::MAX, 1000)];
    assert_eq!(process_increment(&mut accounts), Ok(()));
    assert_eq!(count_of(&accounts[0]), u64::MAX);
    assert_eq!(process_increment(&mut accounts), Ok(()));
    assert_eq!(count_of(&accounts[0]), u64::MAX);
}

#[test]
fn increment_needs_an_account() {
    let mut accounts: Vec<Account> = Vec::new();
    assert_eq!(process_increment(&mut accounts), Err(ProgramError::NotEnoughAccountKeys));
}

#[test]
fn increment_needs_a_writable_counter() {
    let mut read_only = counter(5, 1000);
    read_only.is_writable = false;
    let mut accounts = vec![read_only.clone()];
    assert_eq!(process_increment(&mut accounts), Err(ProgramError::InvalidAccountData));
    assert_eq!(accounts, vec![read_only]);
}

#[test]
fn increment_needs_a_whole_record() {
    let mut short = counter(5, 1000);
    short.data.truncate(7);
    let mut accounts = vec![short.clone()];
    assert_eq!(process_increment(&mut accounts), Err(ProgramError::AccountDataTooSmall));
    assert_eq!(accounts, vec![short]);

    let mut long = counter(5, 1000);
    long.data.push(0);
    let mut accounts = vec![long.clone()];
    assert_eq!(process_increment(&mut accounts), Err(ProgramError::BorshIoError));
    assert_eq!(accounts, vec![long]);
}

#[test]
fn increment_on_an_absent_account_is_refused() {
    let absent =
        Account { key: address(1), is_signer: false, is_writable: true, lamports: 0, data: vec![] };
    let mut accounts = vec![absent.clone(), user(10), system()];
    assert_eq!(process_increment(&mut accounts), Err(ProgramError::AccountDataTooSmall));
    assert_eq!(accounts[0], absent);
}

#[test]
fn increment_leaves_other_accounts_alone() {
    let mut accounts = vec![counter(7, 1000), user(55), system()];
    assert_eq!(process_increment(&mut accounts), Ok(()));
    assert_eq!(accounts[1], user(55));
    assert_eq!(accounts[2], system());
}

#[test]
fn reset_sets_zero() {
    for n in [0u64, 1, 77, u64::MAX] {
        let mut accounts = vec![counter(n, 1000), user(5)];
        assert_eq!(process_reset(&mut accounts), Ok(()));
        assert_eq!(accounts[0].data, vec![0u8; 8]);
        assert_eq!(accounts[0].lamports, 1000);
        assert_eq!(accounts[1], user(5));
    }
}

#[test]
fn reset_needs_the_signature() {
    let mut unsigned = user(5);
    unsigned.is_signer = false;
    let mut accounts = vec![counter(9, 1000), unsigned.clone()];
    assert_eq!(process_reset(&mut accounts), Err(ProgramError::MissingRequiredSignature));
    assert_eq!(accounts, vec![counter(9, 1000), unsigned]);
}

#[test]
fn reset_checks_writability_before_the_signature() {
    let mut read_only = counter(9, 1000);
    read_only.is_writable = false;
    let mut unsigned = user(5);
    unsigned.is_signer = false;
    let mut accounts = vec![read_only, unsigned];
    assert_eq!(process_reset(&mut accounts), Err(ProgramError::InvalidAccountData));
}

#[test]
fn reset_needs_two_accounts() {
    let mut accounts = vec![counter(9, 1000)];
    assert_eq!(process_reset(&mut accounts), Err(ProgramError::NotEnoughAccountKeys));
    assert_eq!(accounts, vec![counter(9, 1000)]);
    let mut none: Vec<Account> = Vec::new();
    assert_eq!(process_reset(&mut none), Err(ProgramError::NotEnoughAccountKeys));
}

#[test]
fn reset_needs_a_whole_record() {
    let mut short = counter(5, 1000);
    short.data.truncate(3);
    let mut accounts = vec![short, user(5)];
    assert_eq!(process_reset(&mut accounts), Err(ProgramError::AccountDataTooSmall));
    let mut long = counter(5, 1000);
    long.data.extend_from_slice(&[0, 0]);
    let mut accounts = vec![long, user(5)];
    assert_eq!(process_reset(&mut accounts), Err(ProgramError::BorshIoError));
}

#[test]
fn close_returns_the_deposit() {
    for n in [0u64, 3, u64::MAX] {
        let mut accounts = vec![counter(n, 946_560), user(5_000)];
        assert_eq!(process_close(&mut accounts), Ok(()));
        assert_eq!(accounts[0].lamports, 0);
        assert_eq!(accounts[0].data, vec![0u8; 8]);
        assert_eq!(accounts[1].lamports, 5_000 + 946_560);
        assert_eq!(accounts[1].data, Vec::<u8>::new());
        assert_eq!(accounts[0].key, address(1));
        assert_eq!(accounts[1].key, address(2));
    }
}

#[test]
fn close_zeroes_storage_of_any_length() {
    let mut odd = counter(3, 10);
    odd.data = vec![1, 2, 3];
    let mut accounts = vec![odd, user(0)];
    assert_eq!(process_close(&mut accounts), Ok(()));
    assert_eq!(accounts[0].data, vec![0u8; 3]);
    assert_eq!(accounts[1].lamports, 10);
}

#[test]
fn close_refuses_an_overflowing_balance() {
    let mut accounts = vec![counter(3, 2), user(u64::MAX - 1)];
    assert_eq!(process_close(&mut accounts), Err(ProgramError::ArithmeticOverflow));
    assert_eq!(accounts, vec![counter(3, 2), user(u64::MAX - 1)]);
}

#[test]
fn close_fills_the_balance_to_the_brim() {
    let mut accounts = vec![counter(3, 1), user(u64::MAX - 1)];
    assert_eq!(process_close(&mut accounts), Ok(()));
    assert_eq!(accounts[1].lamports, u64::MAX);
    assert_eq!(accounts[0].lamports, 0);
}

#[test]
fn close_needs_the_signature() {
    let mut unsigned = user(5);
    unsigned.is_signer = false;
    let mut accounts = vec![counter(9, 1000), unsigned.clone()];
    assert_eq!(process_close(&mut accounts), Err(ProgramError::MissingRequiredSignature));
    assert_eq!(accounts, vec![counter(9, 1000), unsigned]);
}

#[test]
fn close_needs_a_writable_counter() {
    let mut read_only = counter(9, 1000);
    read_only.is_writable = false;
    let mut accounts = vec![read_only, user(5)];
    assert_eq!(process_close(&mut accounts), Err(ProgramError::InvalidAccountData));
}

#[test]
fn close_needs_two_accounts() {
    let mut accounts = vec![counter(9, 1000)];
    assert_eq!(process_close(&mut accounts), Err(ProgramError::NotEnoughAccountKeys));
}

fn absent_counter_of(user: &Account) -> (Account, u8) {
    let (key, bump) = find_counter_address(&user.key, &program()).unwrap();
    (Account { key, is_signer: false, is_writable: true, lamports: 0, data: Vec::new() }, bump)
}

#[test]
fn initialize_asks_for_storage() {
    let payer = user(10_000_000);
    let (absent, bump) = absent_counter_of(&payer);
    let accounts = vec![absent.clone(), payer.clone(), system()];
    assert_eq!(
        process_initialize(&program(), &accounts),
        Ok(Step::CreateAccount(CreateAccount {
            payer: payer.key,
            new_account: absent.key,
            space: 8,
            owner: program(),
            bump_seed: bump,
        }))
    );
}

#[test]
fn initialize_leaves_an_existing_counter_alone() {
    let payer = user(10_000_000);
    let (mut existing, _) = absent_counter_of(&payer);
    existing.lamports = 946_560;
    existing.data = 17u64.to_le_bytes().to_vec();
    let mut accounts = vec![existing.clone(), payer.clone(), system()];
    assert_eq!(process_initialize(&program(), &accounts), Ok(Step::Done));
    assert_eq!(process_instruction(&program(), &mut accounts, &INITIALIZE), Ok(Step::Done));
    assert_eq!(accounts, vec![existing, payer, system()]);
}

#[test]
fn initialize_needs_the_signature() {
    let mut payer = user(10_000_000);
    let (absent, _) = absent_counter_of(&payer);
    payer.is_signer = false;
    let accounts = vec![absent, payer, system()];
    assert_eq!(
        process_initialize(&program(), &accounts),
        Err(ProgramError::MissingRequiredSignature)
    );
}

#[test]
fn initialize_needs_the_derived_address() {
    let payer = user(10_000_000);
    let (mut wrong, _) = absent_counter_of(&payer);
    wrong.key.bytes[0] ^= 1;
    let accounts = vec![wrong, payer.clone(), system()];
    assert_eq!(process_initialize(&program(), &accounts), Err(ProgramError::InvalidAccountData));

    let (of_this_program, _) = absent_counter_of(&payer);
    let accounts = vec![of_this_program, payer, system()];
    assert_eq!(process_initialize(&address(43), &accounts), Err(ProgramError::InvalidAccountData));
}

#[test]
fn initialize_needs_three_accounts() {
    let payer = user(10_000_000);
    let (absent, _) = absent_counter_of(&payer);
    assert_eq!(
        process_initialize(&program(), &vec![absent.clone(), payer.clone()]),
        Err(ProgramError::NotEnoughAccountKeys)
    );
    assert_eq!(
        process_initialize(&program(), &vec![absent]),
        Err(ProgramError::NotEnoughAccountKeys)
    );
    assert_eq!(process_initialize(&program(), &Vec::new()), Err(ProgramError::NotEnoughAccountKeys));
}

#[test]
fn plan_follows_what_the_derivation_gave() {
    let accounts = vec![counter(0, 0), user(10), system()];
    assert_eq!(
        plan_initialize(&program(), &accounts, None),
        Err(ProgramError::NoValidAddress)
    );
    assert_eq!(
        plan_initialize(&program(), &accounts, Some((address(9), 255))),
        Err(ProgramError::InvalidAccountData)
    );
    assert_eq!(
        plan_initialize(&program(), &accounts, Some((address(1), 254))),
        Ok(Step::CreateAccount(CreateAccount {
            payer: address(2),
            new_account: address(1),
            space: 8,
            owner: program(),
            bump_seed: 254,
        }))
    );
    let funded = vec![counter(0, 1), user(10), system()];
    assert_eq!(plan_initialize(&program(), &funded, Some((address(1), 254))), Ok(Step::Done));
}

#[test]
fn plan_checks_the_list_and_the_signature_first() {
    let mut unsigned = user(10);
    unsigned.is_signer = false;
    assert_eq!(
        plan_initialize(&program(), &vec![counter(0, 0), unsigned, system()], None),
        Err(ProgramError::MissingRequiredSignature)
    );
    assert_eq!(
        plan_initialize(&program(), &vec![counter(0, 0), user(10)], Some((address(1), 3))),
        Err(ProgramError::NotEnoughAccountKeys)
    );
}

#[test]
fn complete_initialize_writes_zero() {
    let mut created = counter(0, 946_560);
    created.data = vec![0u8; 8];
    let mut accounts = vec![created, user(10), system()];
    assert_eq!(complete_initialize(&mut accounts), Ok(()));
    assert_eq!(accounts[0].data, vec![0u8; 8]);
    assert_eq!(accounts[0].lamports, 946_560);

    let mut accounts = vec![counter(99, 946_560)];
    assert_eq!(complete_initialize(&mut accounts), Ok(()));
    assert_eq!(accounts[0].data, vec![0u8; 8]);
}

#[test]
fn complete_initialize_needs_storage_of_the_right_size() {
    let mut none: Vec<Account> = Vec::new();
    assert_eq!(complete_initialize(&mut none), Err(ProgramError::NotEnoughAccountKeys));
    let mut short = counter(0, 1);
    short.data = vec![0u8; 4];
    assert_eq!(complete_initialize(&mut vec![short]), Err(ProgramError::AccountDataTooSmall));
    let mut long = counter(0, 1);
    long.data = vec![0u8; 12];
    assert_eq!(complete_initialize(&mut vec![long]), Err(ProgramError::BorshIoError));
}

#[test]
fn router_dispatches_by_tag() {
    let mut accounts = vec![counter(4, 1000), user(50)];
    assert_eq!(process_instruction(&program(), &mut accounts, &INCREMENT), Ok(Step::Done));
    assert_eq!(count_of(&accounts[0]), 5);
    assert_eq!(process_instruction(&program(), &mut accounts, &RESET), Ok(Step::Done));
    assert_eq!(count_of(&accounts[0]), 0);
    assert_eq!(process_instruction(&program(), &mut accounts, &CLOSE), Ok(Step::Done));
    assert_eq!(accounts[0].lamports, 0);
    assert_eq!(accounts[1].lamports, 1050);
}

#[test]
fn router_refuses_unknown_and_malformed_payloads() {
    let mut accounts = vec![counter(4, 1000), user(50)];
    for payload in [&[][..], &[4][..], &[255][..], &[1, 1][..], &[0, 0, 0, 0][..]] {
        assert_eq!(
            process_instruction(&program(), &mut accounts, payload),
            Err(ProgramError::InvalidInstructionData)
        );
        assert_eq!(accounts, vec![counter(4, 1000), user(50)]);
    }
}

#[test]
fn router_hands_handler_errors_on() {
    let mut accounts = vec![counter(4, 1000)];
    assert_eq!(
        process_instruction(&program(), &mut accounts, &RESET),
        Err(ProgramError::NotEnoughAccountKeys)
    );
    assert_eq!(
        process_instruction(&program(), &mut accounts, &CLOSE),
        Err(ProgramError::NotEnoughAccountKeys)
    );
    assert_eq!(
        process_instruction(&program(), &mut accounts, &INITIALIZE),
        Err(ProgramError::NotEnoughAccountKeys)
    );
}

#[test]
fn absent_counter_is_initialized_to_zero_then_incremented() {
    let payer = user(10_000_000);
    let (absent, bump) = absent_counter_of(&payer);
    let mut accounts = vec![absent, payer, system()];

    assert_eq!(
        process_instruction(&program(), &mut accounts, &INCREMENT),
        Err(ProgramError::AccountDataTooSmall)
    );

    let step = process_instruction(&program(), &mut accounts, &INITIALIZE).unwrap();
    let request = match step {
        Step::CreateAccount(request) => request,
        other => panic!("the counter is absent, yet the step is {:?}", other),
    };
    assert_eq!(request.bump_seed, bump);
    assert_eq!(request.payer, accounts[1].key);
    assert_eq!(request.new_account, accounts[0].key);
    assert_eq!(request.owner, program());

    let deposit = 946_560;
    accounts[1].lamports -= deposit;
    accounts[0].lamports = deposit;
    accounts[0].data = vec![0u8; request.space as usize];

    assert_eq!(complete_initialize(&mut accounts), Ok(()));
    assert_eq!(count_of(&accounts[0]), 0);

    assert_eq!(process_instruction(&program(), &mut accounts, &INCREMENT), Ok(Step::Done));
    assert_eq!(count_of(&accounts[0]), 1);

    assert_eq!(process_instruction(&program(), &mut accounts, &INITIALIZE), Ok(Step::Done));
    assert_eq!(count_of(&accounts[0]), 1);
}

#[test]
fn a_counter_lives_from_creation_to_close() {
    let payer = user(10_000_000);
    let (mut created, _) = absent_counter_of(&payer);
    created.lamports = 946_560;
    created.data = vec![0u8; 8];
    let mut accounts = vec![created, payer, system()];
    assert_eq!(complete_initialize(&mut accounts), Ok(()));
    for expected in 1..=5u64 {
        assert_eq!(process_instruction(&program(), &mut accounts, &INCREMENT), Ok(Step::Done));
        assert_eq!(count_of(&accounts[0]), expected);
    }
    assert_eq!(process_instruction(&program(), &mut accounts, &RESET), Ok(Step::Done));
    assert_eq!(count_of(&accounts[0]), 0);
    assert_eq!(process_instruction(&program(), &mut accounts, &CLOSE), Ok(Step::Done));
    assert_eq!(accounts[0].lamports, 0);
    assert_eq!(accounts[0].data, vec![0u8; 8]);
    assert_eq!(accounts[1].lamports, 10_000_000 + 946_560);
    let step = process_instruction(&program(), &mut accounts, &INITIALIZE).unwrap();
    assert!(matches!(step, Step::CreateAccount(_)));
}
