//! Failure codes reported by the program.

use vstd::prelude::*;

verus! {

/// Failures that are specific to this program. Each is reported to the host
/// as a custom code, numbered in declaration order.
#[derive(Clone, Copy, Debug, PartialEq, Eq, Structural)]
pub enum MyFlashloanProgramError {
    /// The instruction data is empty or starts with an unknown tag.
    InvalidInstruction,
    /// The instruction data ends before its amount field does.
    InstructionUnpackError,
    /// The record account does not hold enough balance for its size.
    NotRentExempt,
}

/// Every failure that processing an instruction can report.
#[derive(Clone, Copy, Debug, PartialEq, Eq, Structural)]
pub enum ProgramFailure {
    /// A failure of this program, by its code.
    Custom(u32),
    /// An argument of the instruction could not be used.
    InvalidArgument,
    /// The record account does not hold a well-formed record.
    InvalidAccountData,
    /// The token program named by the caller is not the token program.
    IncorrectProgramId,
    /// The initializer did not sign the transaction.
    MissingRequiredSignature,
    /// The record account has been initialized before.
    AccountAlreadyInitialized,
    /// The instruction came with fewer accounts than it reads.
    NotEnoughAccountKeys,
    /// No program address can be derived for this program.
    InvalidSeeds,
}

impl MyFlashloanProgramError {
    /// The custom code under which the failure is reported.
    pub open spec fn spec_code(self) -> u32 {
        match self {
            MyFlashloanProgramError::InvalidInstruction => 0,
            MyFlashloanProgramError::InstructionUnpackError => 1,
            MyFlashloanProgramError::NotRentExempt => 2,
        }
    }

    /// The custom code under which the failure is reported.
    #[verifier::when_used_as_spec(spec_code)]
    pub fn code(self) -> (code: u32)
        ensures
            code == self.spec_code(),
    {
        match self {
            MyFlashloanProgramError::InvalidInstruction => 0,
            MyFlashloanProgramError::InstructionUnpackError => 1,
            MyFlashloanProgramError::NotRentExempt => 2,
        }
    }
}

impl From<MyFlashloanProgramError> for ProgramFailure {
    fn from(e: MyFlashloanProgramError) -> (err: ProgramFailure) {
        ProgramFailure::Custom(e.code())
    }
}

impl vstd::std_specs::convert::FromSpecImpl<MyFlashloanProgramError> for ProgramFailure {
    open spec fn obeys_from_spec() -> bool {
        true
    }

    open spec fn from_spec(e: MyFlashloanProgramError) -> ProgramFailure {
        ProgramFailure::Custom(e.spec_code())
    }
}

} // verus!
