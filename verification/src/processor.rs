//! Validation and effects of the instructions.
//!
//! The record account moves from uninitialized to initialized once, and
//! never back. An instruction that fails changes no account.

use crate::account::{states, Account, AccountState, RentStatus};
use crate::error::{MyFlashloanProgramError, ProgramFailure};
use crate::instruction::{decode, Command, MyFlashloanProgramInstruction};
use crate::state::{
    decode_exact, encode_record, lemma_decode_encode_record, MyFlashloanProgram, ProgramRecord,
};
use crate::token::{
    authority_request, find_program_address, program_address, set_authority, AuthorityType,
    Instruction, Request, AUTHORITY_SEED, TOKEN_PROGRAM_ID,
};
use vstd::prelude::*;

verus! {

/// The record that a successful initialization writes.
pub open spec fn initial_record(accounts: Seq<AccountState>) -> ProgramRecord {
    ProgramRecord {
        initialized: true,
        initializer: accounts[0].key@,
        controlled_token_account: accounts[1].key@,
    }
}

/// The checks that come before any effect of an initialization, in order:
/// the initializer has signed, the record account is rent exempt, and its
/// record has not been populated. Gives the record to write.
pub open spec fn initialize_checks(accounts: Seq<AccountState>, rent: RentStatus) -> Result<
    ProgramRecord,
    ProgramFailure,
> {
    if accounts.len() < 1 {
        Err(ProgramFailure::NotEnoughAccountKeys)
    } else if !accounts[0].is_signer {
        Err(ProgramFailure::MissingRequiredSignature)
    } else if accounts.len() < 4 {
        Err(ProgramFailure::NotEnoughAccountKeys)
    } else if rent is Unreadable {
        Err(ProgramFailure::InvalidArgument)
    } else if rent is NotExempt {
        Err(ProgramFailure::Custom(MyFlashloanProgramError::NotRentExempt.spec_code()))
    } else {
        match decode_exact(accounts[2].data) {
            Err(e) => Err(e),
            Ok(record) => if record.initialized {
                Err(ProgramFailure::AccountAlreadyInitialized)
            } else {
                Ok(initial_record(accounts))
            },
        }
    }
}

/// The accounts after `record` has been written into the record account.
pub open spec fn with_record(accounts: Seq<AccountState>, record: ProgramRecord) -> Seq<
    AccountState,
> {
    accounts.update(
        2,
        AccountState {
            key: accounts[2].key,
            is_signer: accounts[2].is_signer,
            data: encode_record(record),
        },
    )
}

/// The effect of an initialization whose checks have passed, given the
/// address derived for the program: the request that hands the token account
/// to that address, or the failure that keeps it from being made.
pub open spec fn initialize_effect(
    accounts: Seq<AccountState>,
    derived: Option<(Seq<u8>, u8)>,
) -> Result<Request, ProgramFailure> {
    match derived {
        None => Err(ProgramFailure::InvalidSeeds),
        Some((address, _)) => if accounts.len() < 5 {
            Err(ProgramFailure::NotEnoughAccountKeys)
        } else if accounts[4].key@ != TOKEN_PROGRAM_ID@ {
            Err(ProgramFailure::IncorrectProgramId)
        } else {
            Ok(
                authority_request(
                    accounts[4].key,
                    accounts[1].key,
                    address,
                    AuthorityType::AccountOwner,
                    accounts[0].key,
                    accounts[0].key,
                ),
            )
        },
    }
}

/// What processing leaves behind: the accounts, and either the request to
/// send on or the failure to report.
pub struct Outcome {
    pub accounts: Seq<AccountState>,
    pub result: Result<Option<Request>, ProgramFailure>,
}

/// The outcome of an initialization, given the address derived for the
/// program.
pub open spec fn initialize_with(
    accounts: Seq<AccountState>,
    rent: RentStatus,
    derived: Option<(Seq<u8>, u8)>,
) -> Outcome {
    match initialize_checks(accounts, rent) {
        Err(e) => Outcome { accounts, result: Err(e) },
        Ok(record) => match initialize_effect(accounts, derived) {
            Err(e) => Outcome { accounts, result: Err(e) },
            Ok(request) => Outcome {
                accounts: with_record(accounts, record),
                result: Ok(Some(request)),
            },
        },
    }
}

/// The outcome of an initialization by the program `program_id`.
pub open spec fn initialize(
    accounts: Seq<AccountState>,
    program_id: [u8; 32],
    rent: RentStatus,
) -> Outcome {
    initialize_with(accounts, rent, program_address(AUTHORITY_SEED@, program_id@))
}

/// The outcome of processing `input` as an instruction of the program
/// `program_id`.
pub open spec fn process_outcome(
    program_id: [u8; 32],
    accounts: Seq<AccountState>,
    rent: RentStatus,
    input: Seq<u8>,
) -> Outcome {
    match decode(input) {
        Err(e) => Outcome { accounts, result: Err(e) },
        Ok(Command::Initialize) => initialize(accounts, program_id, rent),
        Ok(Command::ExecuteOperation { .. }) => Outcome { accounts, result: Ok(None) },
        Ok(Command::FlashloanCall { .. }) => Outcome { accounts, result: Ok(None) },
    }
}

/// The view of what a call returned, against the outcome it should have.
pub open spec fn reports(
    r: Result<Option<Instruction>, ProgramFailure>,
    expected: Result<Option<Request>, ProgramFailure>,
) -> bool {
    match r {
        Ok(Some(instruction)) => expected == Ok::<Option<Request>, ProgramFailure>(
            Some(instruction@),
        ),
        Ok(None) => expected == Ok::<Option<Request>, ProgramFailure>(None),
        Err(e) => expected == Err::<Option<Request>, ProgramFailure>(e),
    }
}

/// The processor of the program's instructions.
pub struct Processor;

impl Processor {
    /// Processes one instruction. `rent` is what the rent sysvar, the fourth
    /// account, says of the record account; it is read only where at least
    /// four accounts are given.
    ///
    /// On success the caller sends the returned request, if any, to the
    /// token program.
    pub fn process(
        program_id: &[u8; 32],
        accounts: &mut Vec<Account>,
        rent: RentStatus,
        instruction_data: &[u8],
    ) -> (r: Result<Option<Instruction>, ProgramFailure>)
        ensures
            states(final(accounts)@) == process_outcome(
                *program_id,
                states(old(accounts)@),
                rent,
                instruction_data@,
            ).accounts,
            reports(
                r,
                process_outcome(*program_id, states(old(accounts)@), rent, instruction_data@).result,
            ),
    {
        let instruction = MyFlashloanProgramInstruction::unpack(instruction_data)?;
        match instruction {
            MyFlashloanProgramInstruction::InitMyFlashloanProgram {  } => {
                Self::process_init_my_flashloan_program(accounts, program_id, rent)
            },
            MyFlashloanProgramInstruction::ExecuteOperation { amount } => {
                Self::process_execute_operation(accounts, amount, program_id)?;
                Ok(None)
            },
            MyFlashloanProgramInstruction::MyFlashloanCall { amount, execute_operation_ix_data } => {
                Self::process_my_flashloan_call(
                    accounts,
                    amount,
                    execute_operation_ix_data,
                    program_id,
                )?;
                Ok(None)
            },
        }
    }

    /// Initializes the record account and asks the token program to hand the
    /// token account to the address derived for the program.
    pub fn process_init_my_flashloan_program(
        accounts: &mut Vec<Account>,
        program_id: &[u8; 32],
        rent: RentStatus,
    ) -> (r: Result<Option<Instruction>, ProgramFailure>)
        ensures
            states(final(accounts)@) == initialize(states(old(accounts)@), *program_id, rent).accounts,
            reports(r, initialize(states(old(accounts)@), *program_id, rent).result),
    {
        let record = Self::check_initialize(accounts, rent)?;
        let derived = find_program_address(AUTHORITY_SEED.as_slice(), program_id);
        let instruction = Self::request_authority(accounts, derived)?;
        Self::store_record(accounts, record);
        Ok(Some(instruction))
    }

    /// Runs the checks of an initialization and gives the record to write.
    pub fn check_initialize(accounts: &Vec<Account>, rent: RentStatus) -> (r: Result<
        MyFlashloanProgram,
        ProgramFailure,
    >)
        ensures
            match r {
                Ok(record) => initialize_checks(states(accounts@), rent) == Ok::<
                    ProgramRecord,
                    ProgramFailure,
                >(record@),
                Err(e) => initialize_checks(states(accounts@), rent) == Err::<
                    ProgramRecord,
                    ProgramFailure,
                >(e),
            },
    {
        if accounts.len() < 1 {
            return Err(ProgramFailure::NotEnoughAccountKeys);
        }
        if !accounts[0].is_signer {
            return Err(ProgramFailure::MissingRequiredSignature);
        }
        if accounts.len() < 4 {
            return Err(ProgramFailure::NotEnoughAccountKeys);
        }
        match rent {
            RentStatus::Unreadable => {
                return Err(ProgramFailure::InvalidArgument);
            },
            RentStatus::NotExempt => {
                return Err(ProgramFailure::from(MyFlashloanProgramError::NotRentExempt));
            },
            RentStatus::Exempt => {},
        }
        let mut flashloan_program_info = MyFlashloanProgram::unpack_unchecked(
            accounts[2].data.as_slice(),
        )?;
        if flashloan_program_info.is_initialized() {
            return Err(ProgramFailure::AccountAlreadyInitialized);
        }
        flashloan_program_info.is_initialized = true;
        flashloan_program_info.initializer_pubkey = accounts[0].key;
        flashloan_program_info.flashloan_token_account_pubkey = accounts[1].key;
        Ok(flashloan_program_info)
    }

    /// Builds the request that hands the token account to the address
    /// `derived` for the program.
    pub fn request_authority(accounts: &Vec<Account>, derived: Option<([u8; 32], u8)>) -> (r:
        Result<Instruction, ProgramFailure>)
        ensures
            match r {
                Ok(instruction) => initialize_effect(states(accounts@), view_of(derived)) == Ok::<
                    Request,
                    ProgramFailure,
                >(instruction@),
                Err(e) => initialize_effect(states(accounts@), view_of(derived)) == Err::<
                    Request,
                    ProgramFailure,
                >(e),
            },
    {
        let pda = match derived {
            Some((pda, _bump_seed)) => pda,
            None => {
                return Err(ProgramFailure::InvalidSeeds);
            },
        };
        if accounts.len() < 5 {
            return Err(ProgramFailure::NotEnoughAccountKeys);
        }
        match set_authority(
            &accounts[4].key,
            &accounts[1].key,
            &pda,
            AuthorityType::AccountOwner,
            &accounts[0].key,
            &accounts[0].key,
        ) {
            Ok(instruction) => Ok(instruction),
            Err(_) => Err(ProgramFailure::IncorrectProgramId),
        }
    }

    /// Writes `record` into the record account.
    fn store_record(accounts: &mut Vec<Account>, record: MyFlashloanProgram)
        requires
            old(accounts)@.len() >= 3,
            old(accounts)@[2].data@.len() == MyFlashloanProgram::LEN,
        ensures
            states(final(accounts)@) == with_record(states(old(accounts)@), record@),
    {
        record.pack_into_slice(accounts[2].data.as_mut_slice());
    }

    /// The integrator's use of the borrowed funds, which here is none.
    pub fn process_execute_operation(
        accounts: &Vec<Account>,
        amount: u64,
        program_id: &[u8; 32],
    ) -> (r: Result<(), ProgramFailure>)
        ensures
            r is Ok,
    {
        Ok(())
    }

    /// The call into the lending program, which here is none.
    pub fn process_my_flashloan_call(
        accounts: &Vec<Account>,
        amount: u64,
        execute_operation_ix_data: Vec<u8>,
        program_id: &[u8; 32],
    ) -> (r: Result<(), ProgramFailure>)
        ensures
            r is Ok,
    {
        Ok(())
    }
}

/// A derived address and its bump seed as mathematical values.
pub open spec fn view_of(derived: Option<([u8; 32], u8)>) -> Option<(Seq<u8>, u8)> {
    match derived {
        Some((address, bump)) => Some((address@, bump)),
        None => None,
    }
}

/// An instruction that fails leaves every account as it was.
pub proof fn lemma_failure_changes_nothing(
    program_id: [u8; 32],
    accounts: Seq<AccountState>,
    rent: RentStatus,
    input: Seq<u8>,
)
    requires
        process_outcome(program_id, accounts, rent, input).result is Err,
    ensures
        process_outcome(program_id, accounts, rent, input).accounts == accounts,
{
}

/// An initialization whose initializer has not signed fails for want of a
/// signature and leaves every account as it was.
pub proof fn lemma_unsigned_initialize_rejected(
    accounts: Seq<AccountState>,
    program_id: [u8; 32],
    rent: RentStatus,
)
    requires
        accounts.len() >= 1,
        !accounts[0].is_signer,
    ensures
        initialize(accounts, program_id, rent) == (Outcome {
            accounts,
            result: Err(ProgramFailure::MissingRequiredSignature),
        }),
{
}

/// After an initialization has succeeded, another one on the same record
/// account fails as already initialized and leaves every account as it was,
/// whoever signs it and for whichever program.
pub proof fn lemma_initialize_twice(
    accounts: Seq<AccountState>,
    program_id: [u8; 32],
    rent: RentStatus,
    again: Seq<AccountState>,
    again_program_id: [u8; 32],
)
    requires
        initialize(accounts, program_id, rent).result is Ok,
        again.len() >= 4,
        again[0].is_signer,
        again[2].data == initialize(accounts, program_id, rent).accounts[2].data,
    ensures
        initialize(again, again_program_id, RentStatus::Exempt) == (Outcome {
            accounts: again,
            result: Err(ProgramFailure::AccountAlreadyInitialized),
        }),
        initialize(
            initialize(accounts, program_id, rent).accounts,
            program_id,
            rent,
        ) == (Outcome {
            accounts: initialize(accounts, program_id, rent).accounts,
            result: Err(ProgramFailure::AccountAlreadyInitialized),
        }),
{
    let record = initial_record(accounts);
    lemma_decode_encode_record(record);
}

/// Once the record is populated, no instruction changes any account: the
/// record stays populated and keeps its two addresses.
pub proof fn lemma_initialized_record_is_final(
    program_id: [u8; 32],
    accounts: Seq<AccountState>,
    rent: RentStatus,
    input: Seq<u8>,
)
    requires
        accounts.len() >= 3,
        decode_exact(accounts[2].data) matches Ok(record) && record.initialized,
    ensures
        process_outcome(program_id, accounts, rent, input).accounts == accounts,
{
}

/// The two placeholder instructions succeed on every input, change no
/// account and ask for no request to be sent.
pub proof fn lemma_placeholders_change_nothing(
    program_id: [u8; 32],
    accounts: Seq<AccountState>,
    rent: RentStatus,
    input: Seq<u8>,
)
    requires
        decode(input) matches Ok(command) && !(command is Initialize),
    ensures
        process_outcome(program_id, accounts, rent, input) == (Outcome {
            accounts,
            result: Ok(None),
        }),
{
}

/// A successful initialization writes a record that reads back as
/// populated, with the initializer and the token account that came with the
/// instruction, and changes no other account.
pub proof fn lemma_initialize_writes_record(
    accounts: Seq<AccountState>,
    program_id: [u8; 32],
    rent: RentStatus,
)
    requires
        initialize(accounts, program_id, rent).result is Ok,
    ensures
        accounts.len() >= 5,
        accounts[0].is_signer,
        rent is Exempt,
        decode_exact(accounts[2].data) matches Ok(before) && !before.initialized,
        initialize(accounts, program_id, rent).accounts.len() == accounts.len(),
        forall|i: int|
            0 <= i < accounts.len() && i != 2 ==> initialize(accounts, program_id, rent).accounts[i]
                == accounts[i],
        decode_exact(initialize(accounts, program_id, rent).accounts[2].data) == Ok::<
            ProgramRecord,
            ProgramFailure,
        >(initial_record(accounts)),
{
    lemma_decode_encode_record(initial_record(accounts));
}

} // verus!
