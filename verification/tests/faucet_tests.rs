use sol_token_faucet::account::Account;
use sol_token_faucet::error::FaucetError;
use sol_token_faucet::instructions::FaucetInstruction;
use sol_token_faucet::processor::{initialize_faucet, refill_faucet, request_tokens};
use sol_token_faucet::processor::{Halt, Processor};
use sol_token_faucet::pubkey::Pubkey;
use sol_token_faucet::state::FAUCET_STATE_LEN;
use sol_token_faucet::system::Instruction;

use solana_program::rent::Rent;

const PROGRAM_ID: [u8; 32] = [1; 32];
const FAUCET_KEY: [u8; 32] = [7; 32];
const ADMIN_KEY: [u8; 32] = [9; 32];
const USER_KEY: [u8; 32] = [11; 32];

fn account(key: [u8; 32], owner: [u8; 32], lamports: u64, data: Vec<u8>, is_signer: bool, is_writable: bool) -> Account {
    Account {
        key: Pubkey(key),
        owner: Pubkey(owner),
        lamports,
        data,
        is_signer,
        is_writable,
    }
}

fn rent_data(lamports_per_byte_year: u64, exemption_threshold: f64, burn_percent: u8) -> Vec<u8> {
    let mut data = lamports_per_byte_year.to_le_bytes().to_vec();
    data.extend_from_slice(&exemption_threshold.to_le_bytes());
    data.push(burn_percent);
    data
}

fn default_rent_account() -> Account {
    let rent = Rent::default();
    account(
        solana_program::sysvar::rent::ID.to_bytes(),
        solana_program::sysvar::ID.to_bytes(),
        1,
        rent_data(rent.lamports_per_byte_year, rent.exemption_threshold, rent.burn_percent),
        false,
        false,
    )
}

fn minimum_balance(data_len: usize) -> u64 {
    Rent::default().minimum_balance(data_len)
}

/// The faucet, admin and rent accounts of an initialize instruction that succeeds.
fn init_accounts() -> Vec<Account> {
    vec![
        account(FAUCET_KEY, PROGRAM_ID, minimum_balance(FAUCET_STATE_LEN), vec![0; FAUCET_STATE_LEN], false, true),
        account(ADMIN_KEY, [0; 32], 10_000_000_000, vec![], true, false),
        default_rent_account(),
    ]
}

fn state_bytes(admin: [u8; 32], amount: u64) -> Vec<u8> {
    let mut data = admin.to_vec();
    data.extend_from_slice(&amount.to_le_bytes());
    data
}

/// The faucet and user accounts of a request instruction that succeeds.
fn request_accounts(faucet_lamports: u64, amount: u64) -> Vec<Account> {
    vec![
        account(FAUCET_KEY, PROGRAM_ID, faucet_lamports, state_bytes(ADMIN_KEY, amount), false, true),
        account(USER_KEY, [0; 32], 0, vec![], false, true),
    ]
}

fn program_id() -> Pubkey {
    Pubkey(PROGRAM_ID)
}

fn assert_system_transfer(ix: &Instruction, from: [u8; 32], to: [u8; 32], lamports: u64) {
    #[allow(deprecated)]
    let expected = solana_program::system_instruction::transfer(
        &solana_program::pubkey::Pubkey::new_from_array(from),
        &solana_program::pubkey::Pubkey::new_from_array(to),
        lamports,
    );
    assert_eq!(ix.program_id.to_bytes(), expected.program_id.to_bytes());
    assert_eq!(ix.program_id.to_bytes(), [0; 32]);
    assert_eq!(ix.accounts.len(), 2);
    assert_eq!(ix.accounts[0].pubkey.to_bytes(), from);
    assert!(ix.accounts[0].is_signer && ix.accounts[0].is_writable);
    assert_eq!(ix.accounts[1].pubkey.to_bytes(), to);
    assert!(!ix.accounts[1].is_signer && ix.accounts[1].is_writable);
    assert_eq!(ix.data, expected.data);
    let mut data = vec![2, 0, 0, 0];
    data.extend_from_slice(&lamports.to_le_bytes());
    assert_eq!(ix.data, data);
}

// ---- instruction data ----

#[test]
fn unpack_reads_each_instruction() {
    let mut data = vec![0u8];
    data.extend_from_slice(&1_000_000_000u64.to_le_bytes());
    assert_eq!(
        FaucetInstruction::unpack(&data),
        Ok(FaucetInstruction::InitializeFaucet { amount: 1_000_000_000 })
    );
    assert_eq!(FaucetInstruction::unpack(&[1]), Ok(FaucetInstruction::RequestTokens));
    assert_eq!(FaucetInstruction::unpack(&[1, 5, 6]), Ok(FaucetInstruction::RequestTokens));
    let mut data = vec![2u8];
    data.extend_from_slice(&100_000u64.to_le_bytes());
    assert_eq!(
        FaucetInstruction::unpack(&data),
        Ok(FaucetInstruction::RefillFaucet { amount: 100_000 })
    );
}

#[test]
fn unpack_refuses_empty_and_unknown_data() {
    assert_eq!(FaucetInstruction::unpack(&[]), Err(FaucetError::InvalidInstructionData));
    assert_eq!(FaucetInstruction::unpack(&[3]), Err(FaucetError::InvalidInstructionData));
    assert_eq!(FaucetInstruction::unpack(&[255, 0, 0]), Err(FaucetError::InvalidInstructionData));
}

#[test]
fn unpack_reads_borsh_encoded_instructions() {
    for (tag, amount) in [(0u8, 0u64), (0, u64::MAX), (2, 123_456_789)] {
        let data = borsh::to_vec(&(tag, amount)).unwrap();
        let expected = if tag == 0 {
            FaucetInstruction::InitializeFaucet { amount }
        } else {
            FaucetInstruction::RefillFaucet { amount }
        };
        assert_eq!(FaucetInstruction::unpack(&data), Ok(expected));
    }
    let data = borsh::to_vec(&1u8).unwrap();
    assert_eq!(FaucetInstruction::unpack(&data), Ok(FaucetInstruction::RequestTokens));
}

// ---- addresses ----

#[test]
fn pubkeys_compare_by_bytes() {
    assert_eq!(Pubkey(FAUCET_KEY), Pubkey::new_from_array(FAUCET_KEY));
    let mut other = FAUCET_KEY;
    other[31] = 8;
    assert_ne!(Pubkey(FAUCET_KEY), Pubkey(other));
    assert_eq!(Pubkey(other).to_bytes(), other);
}

// ---- initialize ----

#[test]
fn initialize_faucet_stores_admin_and_amount() {
    let mut accounts = init_accounts();
    assert_eq!(initialize_faucet::initialize_faucet(&program_id(), &mut accounts, 1_000_000_000), Ok(()));
    assert_eq!(accounts[0].data, state_bytes(ADMIN_KEY, 1_000_000_000));
    let (admin, amount): (solana_program::pubkey::Pubkey, u64) =
        borsh::from_slice(&accounts[0].data).unwrap();
    assert_eq!(admin.to_bytes(), ADMIN_KEY);
    assert_eq!(amount, 1_000_000_000);
    assert_eq!(accounts[0].lamports, minimum_balance(FAUCET_STATE_LEN));
    assert_eq!(accounts[1].data, Vec::<u8>::new());
}

#[test]
fn initialize_faucet_keeps_bytes_after_the_state() {
    let mut accounts = init_accounts();
    accounts[0].data = vec![5; 44];
    accounts[0].lamports = minimum_balance(44);
    assert_eq!(initialize_faucet::initialize_faucet(&program_id(), &mut accounts, 77), Ok(()));
    let mut expected = state_bytes(ADMIN_KEY, 77);
    expected.extend_from_slice(&[5, 5, 5, 5]);
    assert_eq!(accounts[0].data, expected);
}

#[test]
fn initialize_faucet_needs_three_accounts() {
    let mut accounts = init_accounts();
    accounts.pop();
    assert_eq!(initialize_faucet::initialize_faucet(&program_id(), &mut accounts, 1), Err(FaucetError::NotEnoughAccountKeys));
    assert_eq!(accounts[0].data, vec![0; FAUCET_STATE_LEN]);
}

#[test]
fn initialize_faucet_needs_the_rent_sysvar() {
    let mut accounts = init_accounts();
    accounts[2].key = Pubkey(USER_KEY);
    assert_eq!(initialize_faucet::initialize_faucet(&program_id(), &mut accounts, 1), Err(FaucetError::InvalidArgument));
    let mut accounts = init_accounts();
    accounts[2].data.truncate(16);
    assert_eq!(initialize_faucet::initialize_faucet(&program_id(), &mut accounts, 1), Err(FaucetError::InvalidArgument));
    let mut accounts = init_accounts();
    accounts[2].data.push(99);
    assert_eq!(initialize_faucet::initialize_faucet(&program_id(), &mut accounts, 1), Ok(()));
}

#[test]
fn initialize_faucet_needs_an_owned_writable_faucet() {
    let mut accounts = init_accounts();
    accounts[0].owner = Pubkey(ADMIN_KEY);
    assert_eq!(initialize_faucet::initialize_faucet(&program_id(), &mut accounts, 1), Err(FaucetError::InvalidAccountData));
    let mut accounts = init_accounts();
    accounts[0].is_writable = false;
    assert_eq!(initialize_faucet::initialize_faucet(&program_id(), &mut accounts, 1), Err(FaucetError::InvalidAccountData));
    assert_eq!(accounts[0].data, vec![0; FAUCET_STATE_LEN]);
}

#[test]
fn initialize_faucet_needs_the_admin_signature() {
    let mut accounts = init_accounts();
    accounts[1].is_signer = false;
    assert_eq!(
        initialize_faucet::initialize_faucet(&program_id(), &mut accounts, 1),
        Err(FaucetError::MissingRequiredSignature)
    );
}

#[test]
fn initialize_faucet_needs_a_rent_exempt_faucet() {
    let minimum = minimum_balance(FAUCET_STATE_LEN);
    assert_eq!(minimum, ((128 + 40) * 3480) as u64 * 2);
    let mut accounts = init_accounts();
    accounts[0].lamports = minimum - 1;
    assert_eq!(initialize_faucet::initialize_faucet(&program_id(), &mut accounts, 1), Err(FaucetError::AccountNotRentExempt));
    assert_eq!(accounts[0].data, vec![0; FAUCET_STATE_LEN]);
    // Under a rent that charges nothing every balance is exempt.
    let mut accounts = init_accounts();
    accounts[0].lamports = 0;
    accounts[2].data = rent_data(0, 2.0, 50);
    assert_eq!(initialize_faucet::initialize_faucet(&program_id(), &mut accounts, 1), Ok(()));
}

#[test]
fn initialize_faucet_writes_what_fits_in_short_data() {
    let mut accounts = init_accounts();
    accounts[0].data = vec![0; 35];
    accounts[0].lamports = minimum_balance(35);
    let result = initialize_faucet::initialize_faucet(&program_id(), &mut accounts, 0x0102_0304_0506_0708);
    assert!(matches!(result, Err(FaucetError::BorshIoError(_))));
    let expected = state_bytes(ADMIN_KEY, 0x0102_0304_0506_0708);
    assert_eq!(accounts[0].data, expected[..35].to_vec());
}

#[test]
fn initialize_faucet_writes_every_entry_of_the_faucet() {
    let mut accounts = init_accounts();
    let duplicate = accounts[0].clone();
    accounts.push(duplicate);
    assert_eq!(initialize_faucet::initialize_faucet(&program_id(), &mut accounts, 42), Ok(()));
    assert_eq!(accounts[3].data, state_bytes(ADMIN_KEY, 42));
    assert_eq!(accounts[2].data, default_rent_account().data);
}

// ---- request ----

#[test]
fn request_tokens() {
    let mut accounts = request_accounts(minimum_balance(FAUCET_STATE_LEN) + 1_000_000_000, 1_000_000_000);
    assert_eq!(request_tokens::request_tokens(&program_id(), &mut accounts), Ok(()));
    assert_eq!(accounts[1].lamports, 1_000_000_000);
    assert_eq!(accounts[0].lamports, minimum_balance(FAUCET_STATE_LEN));
}

#[test]
fn request_tokens_refuses_an_empty_faucet() {
    let mut accounts = request_accounts(0, 5);
    assert_eq!(request_tokens::request_tokens(&program_id(), &mut accounts), Err(FaucetError::InsufficientFunds));
    assert_eq!(accounts[1].lamports, 0);
}

#[test]
fn request_tokens_needs_two_accounts_and_an_owned_faucet() {
    let mut accounts = request_accounts(10, 5);
    accounts.pop();
    assert_eq!(request_tokens::request_tokens(&program_id(), &mut accounts), Err(FaucetError::NotEnoughAccountKeys));
    let mut accounts = request_accounts(10, 5);
    accounts[0].owner = Pubkey(USER_KEY);
    assert_eq!(request_tokens::request_tokens(&program_id(), &mut accounts), Err(FaucetError::IncorrectProgramId));
    assert_eq!(accounts[0].lamports, 10);
}

#[test]
fn request_tokens_needs_exactly_the_state_in_the_faucet_data() {
    for len in [0usize, 39, 41] {
        let mut accounts = request_accounts(10, 5);
        accounts[0].data.resize(len, 0);
        let result = request_tokens::request_tokens(&program_id(), &mut accounts);
        let expected = if len < FAUCET_STATE_LEN { "Unexpected length of input" } else { "Not all bytes read" };
        assert_eq!(result, Err(FaucetError::BorshIoError(expected.to_string())), "length {}", len);
        assert_eq!(accounts[0].lamports, 10);
        assert_eq!(accounts[1].lamports, 0);
    }
}

#[test]
fn request_tokens_from_the_faucet_to_itself_keeps_its_balance() {
    let mut accounts = request_accounts(10, 4);
    accounts[1] = accounts[0].clone();
    assert_eq!(request_tokens::request_tokens(&program_id(), &mut accounts), Ok(()));
    assert_eq!(accounts[0].lamports, 10);
    assert_eq!(accounts[1].lamports, 10);
}

#[test]
fn request_tokens_conserves_lamports() {
    let mut accounts = request_accounts(1_000, 300);
    accounts[1].lamports = 50;
    accounts.push(account(ADMIN_KEY, [0; 32], 9, vec![], true, false));
    assert_eq!(request_tokens::request_tokens(&program_id(), &mut accounts), Ok(()));
    assert_eq!(accounts[0].lamports + accounts[1].lamports, 1_050);
    assert_eq!(accounts[0].lamports, 700);
    assert_eq!(accounts[1].lamports, 350);
    assert_eq!(accounts[2].lamports, 9);
}

// ---- refill ----

#[test]
fn refill_faucet() {
    let accounts = init_accounts();
    let ix = refill_faucet::refill_faucet(&program_id(), &accounts, 100_000_000).unwrap();
    assert_system_transfer(&ix, ADMIN_KEY, FAUCET_KEY, 100_000_000);
}

#[test]
fn refill_faucet_refusals() {
    let accounts = init_accounts();
    assert!(matches!(
        refill_faucet::refill_faucet(&program_id(), &accounts[..1], 1),
        Err(FaucetError::NotEnoughAccountKeys)
    ));
    let mut accounts = init_accounts();
    accounts[1].is_signer = false;
    assert!(matches!(
        refill_faucet::refill_faucet(&program_id(), &accounts, 1),
        Err(FaucetError::MissingRequiredSignature)
    ));
    let mut accounts = init_accounts();
    accounts[0].owner = Pubkey(USER_KEY);
    assert!(matches!(refill_faucet::refill_faucet(&program_id(), &accounts, 1), Err(FaucetError::IncorrectProgramId)));
}

// ---- processing instruction data ----

#[test]
fn initialize_then_request_pays_the_stored_amount() {
    let amount = 1_000_000_000u64;
    let mut accounts = init_accounts();
    let data = borsh::to_vec(&(0u8, amount)).unwrap();
    assert!(matches!(Processor::process_instruction(&program_id(), &mut accounts, &data), Ok(None)));
    // The admin funds the faucet, then a user requests.
    let mut request = vec![accounts[0].clone(), account(USER_KEY, [0; 32], 0, vec![], false, true)];
    request[0].lamports += amount;
    let result = Processor::process_instruction(&program_id(), &mut request, &[1]);
    assert!(matches!(result, Ok(None)));
    assert_eq!(request[1].lamports, amount);
    assert_eq!(request[0].lamports, minimum_balance(FAUCET_STATE_LEN));
}

#[test]
fn process_instruction_refill_hands_back_the_transfer() {
    let mut accounts = init_accounts();
    let data = borsh::to_vec(&(2u8, 100_000u64)).unwrap();
    let ix = Processor::process_instruction(&program_id(), &mut accounts, &data).unwrap().unwrap();
    assert_system_transfer(&ix, ADMIN_KEY, FAUCET_KEY, 100_000);
    assert_eq!(accounts[0].data, vec![0; FAUCET_STATE_LEN]);
}

#[test]
fn process_instruction_refuses_unknown_data() {
    let mut accounts = init_accounts();
    assert!(matches!(
        Processor::process_instruction(&program_id(), &mut accounts, &[]),
        Err(FaucetError::InvalidInstructionData)
    ));
    assert!(matches!(
        Processor::process_instruction(&program_id(), &mut accounts, &[9]),
        Err(FaucetError::InvalidInstructionData)
    ));
}

#[test]
fn checked_processing_matches_processing() {
    let mut accounts = init_accounts();
    let data = borsh::to_vec(&(0u8, 5u64)).unwrap();
    assert!(matches!(
        Processor::process_instruction_checked(&program_id(), &mut accounts, &data),
        Ok(Ok(None))
    ));
    assert_eq!(accounts[0].data, state_bytes(ADMIN_KEY, 5));
    assert!(matches!(
        Processor::process_instruction_checked(&program_id(), &mut accounts, &[4]),
        Ok(Err(FaucetError::InvalidInstructionData))
    ));
}

#[test]
fn checked_processing_halts_on_unreadable_payloads() {
    let mut accounts = init_accounts();
    assert_eq!(
        Processor::process_instruction_checked(&program_id(), &mut accounts, &[0, 1, 2]).unwrap_err(),
        Halt::PayloadUnreadable
    );
    let mut data = borsh::to_vec(&(2u8, 5u64)).unwrap();
    data.push(0);
    assert_eq!(
        Processor::process_instruction_checked(&program_id(), &mut accounts, &data).unwrap_err(),
        Halt::PayloadUnreadable
    );
}

#[test]
fn checked_processing_halts_on_overflow() {
    let mut accounts = init_accounts();
    accounts[2].data = rent_data(u64::MAX / 100, 2.0, 50);
    let data = borsh::to_vec(&(0u8, 5u64)).unwrap();
    assert_eq!(
        Processor::process_instruction_checked(&program_id(), &mut accounts, &data).unwrap_err(),
        Halt::ArithmeticOverflow
    );
    let mut accounts = request_accounts(10, 11);
    assert_eq!(
        Processor::process_instruction_checked(&program_id(), &mut accounts, &[1]).unwrap_err(),
        Halt::ArithmeticOverflow
    );
    assert_eq!(accounts[0].lamports, 10);
    let mut accounts = request_accounts(10, 4);
    accounts[1].lamports = u64::MAX - 3;
    assert_eq!(
        Processor::process_instruction_checked(&program_id(), &mut accounts, &[1]).unwrap_err(),
        Halt::ArithmeticOverflow
    );
}

#[test]
fn checked_processing_halts_where_the_instruction_fails() {
    let mut accounts = init_accounts();
    accounts[1].is_signer = false;
    let data = borsh::to_vec(&(0u8, 5u64)).unwrap();
    assert_eq!(
        Processor::process_instruction_checked(&program_id(), &mut accounts, &data).unwrap_err(),
        Halt::InstructionFailed(FaucetError::MissingRequiredSignature)
    );
    let data = borsh::to_vec(&(2u8, 5u64)).unwrap();
    assert_eq!(
        Processor::process_instruction_checked(&program_id(), &mut accounts, &data).unwrap_err(),
        Halt::InstructionFailed(FaucetError::MissingRequiredSignature)
    );
    let mut accounts = request_accounts(0, 4);
    assert_eq!(
        Processor::process_instruction_checked(&program_id(), &mut accounts, &[1]).unwrap_err(),
        Halt::InstructionFailed(FaucetError::InsufficientFunds)
    );
    let mut accounts = init_accounts();
    accounts[0].data = vec![0; 10];
    let data = borsh::to_vec(&(0u8, 5u64)).unwrap();
    let halt = Processor::process_instruction_checked(&program_id(), &mut accounts, &data).unwrap_err();
    assert!(matches!(halt, Halt::InstructionFailed(FaucetError::BorshIoError(_))));
    assert_eq!(accounts[0].data, state_bytes(ADMIN_KEY, 5)[..10].to_vec());
}

#[test]
fn request_tokens_ignores_who_signed() {
    for data_len in [FAUCET_STATE_LEN, 41] {
        let mut unsigned = request_accounts(1_000, 300);
        unsigned[0].data.resize(data_len, 0);
        let mut signed = unsigned.clone();
        signed[0].is_signer = true;
        signed[1].is_signer = true;
        let unsigned_result = request_tokens::request_tokens(&program_id(), &mut unsigned);
        let signed_result = request_tokens::request_tokens(&program_id(), &mut signed);
        assert_eq!(unsigned_result, signed_result);
        assert_eq!(unsigned[0].lamports, signed[0].lamports);
        assert_eq!(unsigned[1].lamports, signed[1].lamports);
    }
}

#[test]
fn process_instruction_returns_only_the_unpacking_error() {
    for data in [vec![], vec![3u8], vec![200u8, 1, 2]] {
        let mut accounts = init_accounts();
        let result = Processor::process_instruction(&program_id(), &mut accounts, &data);
        assert!(matches!(result, Err(FaucetError::InvalidInstructionData)));
        assert_eq!(accounts[0].data, vec![0; FAUCET_STATE_LEN]);
    }
    // A handler that refuses is a halt, not a returned error.
    let mut accounts = request_accounts(10, 4);
    accounts[0].owner = Pubkey(USER_KEY);
    assert_eq!(
        Processor::process_instruction_checked(&program_id(), &mut accounts, &[1]).unwrap_err(),
        Halt::InstructionFailed(FaucetError::IncorrectProgramId)
    );
}
