use flashloan_program::account::{Account, RentStatus};
use flashloan_program::error::{MyFlashloanProgramError, ProgramFailure};
use flashloan_program::processor::Processor;
use flashloan_program::state::MyFlashloanProgram;
use flashloan_program::token::{AccountMeta, AUTHORITY_SEED, TOKEN_PROGRAM_ID};
use solana_program::pubkey::Pubkey;

const PROGRAM_ID: [u8; 32] = [9u8; 32];
const INITIALIZER: [u8; 32] = [1u8; 32];
const TOKEN_ACCOUNT: [u8; 32] = [2u8; 32];
const RECORD_ACCOUNT: [u8; 32] = [3u8; 32];
const RENT_SYSVAR: [u8; 32] = [4u8; 32];

fn account(key: [u8; 32], is_signer: bool, data: Vec<u8>) -> Account {
    Account { key, is_signer, data }
}

fn fresh_accounts() -> Vec<Account> {
    vec![
        account(INITIALIZER, true, vec![]),
        account(TOKEN_ACCOUNT, false, vec![0xab; 165]),
        account(RECORD_ACCOUNT, false, vec![0; 65]),
        account(RENT_SYSVAR, false, vec![0; 17]),
        account(TOKEN_PROGRAM_ID, false, vec![]),
    ]
}

fn derived_address() -> [u8; 32] {
    let program = Pubkey::new_from_array(PROGRAM_ID);
    Pubkey::find_program_address(&[b"my_flashloan_program"], &program).0.to_bytes()
}

#[test]
fn seed_spells_the_name_of_the_program() {
    assert_eq!(&AUTHORITY_SEED, b"my_flashloan_program");
}

#[test]
fn token_program_id_is_that_of_the_token_program() {
    assert_eq!(TOKEN_PROGRAM_ID, spl_token::id().to_bytes());
}

#[test]
fn initialize_populates_the_record() {
    let mut accounts = fresh_accounts();
    let result = Processor::process(&PROGRAM_ID, &mut accounts, RentStatus::Exempt, &[0]);
    assert!(matches!(result, Ok(Some(_))));
    let mut expected = vec![1u8];
    expected.extend_from_slice(&INITIALIZER);
    expected.extend_from_slice(&TOKEN_ACCOUNT);
    assert_eq!(accounts[2].data, expected);
    assert_eq!(
        MyFlashloanProgram::unpack_unchecked(&accounts[2].data),
        Ok(MyFlashloanProgram {
            is_initialized: true,
            initializer_pubkey: INITIALIZER,
            flashloan_token_account_pubkey: TOKEN_ACCOUNT,
        })
    );
    let before = fresh_accounts();
    for i in [0usize, 1, 3, 4] {
        assert_eq!(accounts[i], before[i]);
    }
    assert_eq!(accounts[2].key, RECORD_ACCOUNT);
    assert!(!accounts[2].is_signer);
}

#[test]
fn initialize_requests_the_token_account_for_the_derived_address() {
    let mut accounts = fresh_accounts();
    let instruction = Processor::process(&PROGRAM_ID, &mut accounts, RentStatus::Exempt, &[0])
        .unwrap()
        .unwrap();
    assert_eq!(instruction.program_id, TOKEN_PROGRAM_ID);
    assert_eq!(
        instruction.accounts,
        vec![
            AccountMeta { pubkey: TOKEN_ACCOUNT, is_signer: false, is_writable: true },
            AccountMeta { pubkey: INITIALIZER, is_signer: false, is_writable: false },
            AccountMeta { pubkey: INITIALIZER, is_signer: true, is_writable: false },
        ]
    );
    let mut data = vec![6u8, 2, 1];
    data.extend_from_slice(&derived_address());
    assert_eq!(instruction.data, data);
    assert_ne!(derived_address(), PROGRAM_ID);
}

#[test]
#[allow(deprecated)]
fn request_is_the_one_the_token_library_builds() {
    let accounts = fresh_accounts();
    let built = Processor::request_authority(&accounts, Some(([7u8; 32], 255))).unwrap();
    let initializer = Pubkey::new_from_array(INITIALIZER);
    let expected = spl_token::instruction::set_authority(
        &spl_token::id(),
        &Pubkey::new_from_array(TOKEN_ACCOUNT),
        Some(&Pubkey::new_from_array([7u8; 32])),
        spl_token::instruction::AuthorityType::AccountOwner,
        &initializer,
        &[&initializer],
    )
    .unwrap();
    assert_eq!(built.program_id, expected.program_id.to_bytes());
    assert_eq!(built.data, expected.data);
    assert_eq!(built.accounts.len(), expected.accounts.len());
    for (ours, theirs) in built.accounts.iter().zip(expected.accounts.iter()) {
        assert_eq!(ours.pubkey, theirs.pubkey.to_bytes());
        assert_eq!(ours.is_signer, theirs.is_signer);
        assert_eq!(ours.is_writable, theirs.is_writable);
    }
    let mut data = vec![6u8, 2, 1];
    data.extend_from_slice(&[7u8; 32]);
    assert_eq!(built.data, data);
}

#[test]
fn request_without_a_derived_address_is_invalid_seeds() {
    let accounts = fresh_accounts();
    assert_eq!(Processor::request_authority(&accounts, None), Err(ProgramFailure::InvalidSeeds));
}

#[test]
fn request_to_another_program_is_an_incorrect_program_id() {
    let mut accounts = fresh_accounts();
    accounts[4].key = [5u8; 32];
    assert_eq!(
        Processor::request_authority(&accounts, Some(([7u8; 32], 255))),
        Err(ProgramFailure::IncorrectProgramId)
    );
    let before = fresh_accounts()[2].data.clone();
    assert_eq!(
        Processor::process(&PROGRAM_ID, &mut accounts, RentStatus::Exempt, &[0]),
        Err(ProgramFailure::IncorrectProgramId)
    );
    assert_eq!(accounts[2].data, before);
}

#[test]
fn initialize_twice_fails_and_keeps_the_record() {
    let mut accounts = fresh_accounts();
    assert!(Processor::process(&PROGRAM_ID, &mut accounts, RentStatus::Exempt, &[0]).is_ok());
    let after_first = accounts[2].data.clone();
    assert_eq!(
        Processor::process(&PROGRAM_ID, &mut accounts, RentStatus::Exempt, &[0]),
        Err(ProgramFailure::AccountAlreadyInitialized)
    );
    assert_eq!(accounts[2].data, after_first);
    accounts[0].key = [8u8; 32];
    accounts[1].key = [10u8; 32];
    assert_eq!(
        Processor::process(&[11u8; 32], &mut accounts, RentStatus::Exempt, &[0]),
        Err(ProgramFailure::AccountAlreadyInitialized)
    );
    assert_eq!(accounts[2].data, after_first);
}

#[test]
fn initialize_without_signature_fails_and_keeps_the_record() {
    let mut accounts = fresh_accounts();
    accounts[0].is_signer = false;
    let before = accounts[2].data.clone();
    assert_eq!(
        Processor::process(&PROGRAM_ID, &mut accounts, RentStatus::Exempt, &[0]),
        Err(ProgramFailure::MissingRequiredSignature)
    );
    assert_eq!(accounts[2].data, before);
    assert_eq!(
        Processor::process(&PROGRAM_ID, &mut accounts, RentStatus::NotExempt, &[0]),
        Err(ProgramFailure::MissingRequiredSignature)
    );
    accounts.truncate(1);
    assert_eq!(
        Processor::process(&PROGRAM_ID, &mut accounts, RentStatus::Unreadable, &[0]),
        Err(ProgramFailure::MissingRequiredSignature)
    );
}

#[test]
fn initialize_without_rent_exemption_fails() {
    let mut accounts = fresh_accounts();
    assert_eq!(
        Processor::process(&PROGRAM_ID, &mut accounts, RentStatus::NotExempt, &[0]),
        Err(ProgramFailure::Custom(2))
    );
    assert_eq!(
        ProgramFailure::Custom(2),
        ProgramFailure::from(MyFlashloanProgramError::NotRentExempt)
    );
    assert_eq!(accounts, fresh_accounts());
}

#[test]
fn initialize_with_unreadable_rent_is_an_invalid_argument() {
    let mut accounts = fresh_accounts();
    assert_eq!(
        Processor::process(&PROGRAM_ID, &mut accounts, RentStatus::Unreadable, &[0]),
        Err(ProgramFailure::InvalidArgument)
    );
    assert_eq!(accounts, fresh_accounts());
}

#[test]
fn initialize_with_too_few_accounts_fails() {
    for n in [0usize, 2, 3, 4] {
        let mut accounts = fresh_accounts();
        accounts.truncate(n);
        assert_eq!(
            Processor::process(&PROGRAM_ID, &mut accounts, RentStatus::Exempt, &[0]),
            Err(ProgramFailure::NotEnoughAccountKeys)
        );
        let mut before = fresh_accounts();
        before.truncate(n);
        assert_eq!(accounts, before);
    }
}

#[test]
fn initialize_on_malformed_record_is_invalid_account_data() {
    let mut accounts = fresh_accounts();
    accounts[2].data[0] = 2;
    assert_eq!(
        Processor::process(&PROGRAM_ID, &mut accounts, RentStatus::Exempt, &[0]),
        Err(ProgramFailure::InvalidAccountData)
    );
    assert_eq!(accounts[2].data[0], 2);
    let mut accounts = fresh_accounts();
    accounts[2].data = vec![0; 64];
    assert_eq!(
        Processor::process(&PROGRAM_ID, &mut accounts, RentStatus::Exempt, &[0]),
        Err(ProgramFailure::InvalidAccountData)
    );
    assert_eq!(accounts[2].data, vec![0; 64]);
}

#[test]
fn checks_run_in_order() {
    let mut accounts = fresh_accounts();
    accounts[2].data[0] = 1;
    assert_eq!(
        Processor::check_initialize(&accounts, RentStatus::NotExempt),
        Err(ProgramFailure::Custom(2))
    );
    assert_eq!(
        Processor::check_initialize(&accounts, RentStatus::Exempt),
        Err(ProgramFailure::AccountAlreadyInitialized)
    );
    accounts[2].data[0] = 0;
    assert_eq!(
        Processor::check_initialize(&accounts, RentStatus::Exempt),
        Ok(MyFlashloanProgram {
            is_initialized: true,
            initializer_pubkey: INITIALIZER,
            flashloan_token_account_pubkey: TOKEN_ACCOUNT,
        })
    );
}

#[test]
fn placeholders_succeed_and_change_nothing() {
    let inputs: Vec<Vec<u8>> = vec![
        vec![1, 5, 0, 0, 0, 0, 0, 0, 0],
        vec![2, 5, 0, 0, 0, 0, 0, 0, 0],
        vec![2, 255, 255, 255, 255, 255, 255, 255, 255, 1, 9, 0, 0, 0, 0, 0, 0, 0],
    ];
    for input in inputs {
        for rent in [RentStatus::Unreadable, RentStatus::NotExempt, RentStatus::Exempt] {
            let mut accounts = fresh_accounts();
            assert_eq!(Processor::process(&PROGRAM_ID, &mut accounts, rent, &input), Ok(None));
            assert_eq!(accounts, fresh_accounts());
            let mut none: Vec<Account> = vec![];
            assert_eq!(Processor::process(&PROGRAM_ID, &mut none, rent, &input), Ok(None));
            assert!(none.is_empty());
        }
    }
    let accounts = fresh_accounts();
    assert_eq!(Processor::process_execute_operation(&accounts, 5, &PROGRAM_ID), Ok(()));
    assert_eq!(Processor::process_my_flashloan_call(&accounts, 5, vec![1], &PROGRAM_ID), Ok(()));
}

#[test]
fn undecodable_instruction_fails_and_changes_nothing() {
    let mut accounts = fresh_accounts();
    assert_eq!(
        Processor::process(&PROGRAM_ID, &mut accounts, RentStatus::Exempt, &[]),
        Err(ProgramFailure::Custom(0))
    );
    assert_eq!(
        Processor::process(&PROGRAM_ID, &mut accounts, RentStatus::Exempt, &[1, 1]),
        Err(ProgramFailure::Custom(1))
    );
    assert_eq!(accounts, fresh_accounts());
}
