//! The instructions of the program and their wire format.
//!
//! | tag | layout                         |
//! |-----|--------------------------------|
//! | 0   | `[0]`                          |
//! | 1   | `[1][amount: 8]`               |
//! | 2   | `[2][amount: 8][payload: rest]`|
//!
//! Amounts are little-endian.

use crate::error::{MyFlashloanProgramError, ProgramFailure};
use crate::little_endian::{
    le_bytes, le_value, lemma_le_value_bounds, lemma_le_value_of_bytes, read_u64, write_u64,
};
use vstd::prelude::*;
use vstd::slice::slice_to_vec;

verus! {

/// An instruction as a mathematical value.
pub enum Command {
    /// Populate the record account and hand the token account to the program.
    Initialize,
    /// Put borrowed funds to use.
    ExecuteOperation { amount: u64 },
    /// Borrow `amount`; `payload` travels with the request untouched.
    FlashloanCall { amount: u64, payload: Seq<u8> },
}

/// The bytes that carry `command`.
pub open spec fn encode(command: Command) -> Seq<u8> {
    match command {
        Command::Initialize => seq![0u8],
        Command::ExecuteOperation { amount } => seq![1u8] + le_bytes(amount),
        Command::FlashloanCall { amount, payload } => seq![2u8] + le_bytes(amount) + payload,
    }
}

/// What reading an amount from the front of `bytes` gives: the amount and the
/// bytes after it, or a failure when fewer than eight bytes are there.
pub open spec fn decode_amount(bytes: Seq<u8>) -> Result<(u64, Seq<u8>), ProgramFailure> {
    if bytes.len() >= 8 {
        Ok((le_value(bytes.subrange(0, 8)) as u64, bytes.subrange(8, bytes.len() as int)))
    } else {
        Err(ProgramFailure::Custom(MyFlashloanProgramError::InstructionUnpackError.spec_code()))
    }
}

/// What reading one byte from the front of `bytes` gives: the byte and the
/// bytes after it, or a failure when `bytes` is empty.
pub open spec fn decode_byte(bytes: Seq<u8>) -> Result<(u8, Seq<u8>), ProgramFailure> {
    if bytes.len() >= 1 {
        Ok((bytes[0], bytes.subrange(1, bytes.len() as int)))
    } else {
        Err(ProgramFailure::Custom(MyFlashloanProgramError::InstructionUnpackError.spec_code()))
    }
}

/// The command that `bytes` carry, or the failure that reading them gives.
///
/// Bytes after a complete `Initialize` or `ExecuteOperation` are ignored.
pub open spec fn decode(bytes: Seq<u8>) -> Result<Command, ProgramFailure> {
    if bytes.len() == 0 {
        Err(ProgramFailure::Custom(MyFlashloanProgramError::InvalidInstruction.spec_code()))
    } else if bytes[0] == 0 {
        Ok(Command::Initialize)
    } else if bytes[0] == 1 {
        match decode_amount(bytes.subrange(1, bytes.len() as int)) {
            Ok((amount, _)) => Ok(Command::ExecuteOperation { amount }),
            Err(e) => Err(e),
        }
    } else if bytes[0] == 2 {
        match decode_amount(bytes.subrange(1, bytes.len() as int)) {
            Ok((amount, payload)) => Ok(Command::FlashloanCall { amount, payload }),
            Err(e) => Err(e),
        }
    } else {
        Err(ProgramFailure::Custom(MyFlashloanProgramError::InvalidInstruction.spec_code()))
    }
}

/// Decoding the encoding of any command gives the command back.
pub proof fn lemma_decode_encode(command: Command)
    ensures
        decode(encode(command)) == Ok::<Command, ProgramFailure>(command),
{
    let bytes = encode(command);
    let rest = bytes.subrange(1, bytes.len() as int);
    match command {
        Command::Initialize => {},
        Command::ExecuteOperation { amount } => {
            lemma_le_value_of_bytes(amount);
            assert(rest =~= le_bytes(amount));
            assert(rest.subrange(0, 8) =~= le_bytes(amount));
        },
        Command::FlashloanCall { amount, payload } => {
            lemma_le_value_of_bytes(amount);
            assert(rest =~= le_bytes(amount) + payload);
            assert(rest.subrange(0, 8) =~= le_bytes(amount));
            assert(rest.subrange(8, rest.len() as int) =~= payload);
        },
    }
}

/// An instruction of the program.
#[derive(Debug, PartialEq, Eq)]
pub enum MyFlashloanProgramInstruction {
    /// Populates the record account and transfers ownership of the given
    /// token account to the program's derived address.
    ///
    /// Accounts expected:
    ///
    /// 0. `[signer]` the account of the initializer
    /// 1. `[writable]` the token account, owned by the initializer
    /// 2. `[writable]` the record account of the program
    /// 3. `[]` the rent sysvar
    /// 4. `[]` the token program
    InitMyFlashloanProgram {},
    /// Called back by the lending program once the loan has been paid out.
    ExecuteOperation { amount: u64 },
    /// Borrows `amount` from a lending program, which is handed
    /// `execute_operation_ix_data` to call back with.
    MyFlashloanCall { amount: u64, execute_operation_ix_data: Vec<u8> },
}

impl View for MyFlashloanProgramInstruction {
    type V = Command;

    open spec fn view(&self) -> Command {
        match self {
            MyFlashloanProgramInstruction::InitMyFlashloanProgram {  } => Command::Initialize,
            MyFlashloanProgramInstruction::ExecuteOperation { amount } => Command::ExecuteOperation {
                amount: *amount,
            },
            MyFlashloanProgramInstruction::MyFlashloanCall {
                amount,
                execute_operation_ix_data,
            } => Command::FlashloanCall { amount: *amount, payload: execute_operation_ix_data@ },
        }
    }
}

impl MyFlashloanProgramInstruction {
    /// Unpacks a byte buffer into an instruction.
    pub fn unpack(input: &[u8]) -> (r: Result<Self, ProgramFailure>)
        ensures
            match r {
                Ok(instruction) => decode(input@) == Ok::<Command, ProgramFailure>(instruction@),
                Err(e) => decode(input@) == Err::<Command, ProgramFailure>(e),
            },
    {
        if input.len() == 0 {
            return Err(ProgramFailure::from(MyFlashloanProgramError::InvalidInstruction));
        }
        let (tag, rest) = input.split_at(1);
        match tag[0] {
            0 => Ok(Self::InitMyFlashloanProgram {  }),
            1 => {
                let (amount, _rest) = Self::unpack_u64(rest)?;
                Ok(Self::ExecuteOperation { amount })
            },
            2 => {
                let (amount, execute_operation_ix_data_slice) = Self::unpack_u64(rest)?;
                let execute_operation_ix_data = slice_to_vec(execute_operation_ix_data_slice);
                Ok(Self::MyFlashloanCall { amount, execute_operation_ix_data })
            },
            _ => Err(ProgramFailure::from(MyFlashloanProgramError::InvalidInstruction)),
        }
    }

    /// Reads a little-endian amount from the front of `input` and returns it
    /// with the bytes that follow.
    pub fn unpack_u64(input: &[u8]) -> (r: Result<(u64, &[u8]), ProgramFailure>)
        ensures
            match r {
                Ok((amount, rest)) => decode_amount(input@) == Ok::<
                    (u64, Seq<u8>),
                    ProgramFailure,
                >((amount, rest@)),
                Err(e) => decode_amount(input@) == Err::<(u64, Seq<u8>), ProgramFailure>(e),
            },
    {
        if input.len() >= 8 {
            let (amount, rest) = input.split_at(8);
            proof {
                lemma_le_value_bounds(amount@);
                assert(amount@.subrange(0, 8) =~= amount@);
            }
            Ok((read_u64(amount), rest))
        } else {
            Err(ProgramFailure::from(MyFlashloanProgramError::InstructionUnpackError))
        }
    }

    /// Reads one byte from the front of `input` and returns it with the bytes
    /// that follow.
    pub fn unpack_u8(input: &[u8]) -> (r: Result<(u8, &[u8]), ProgramFailure>)
        ensures
            match r {
                Ok((value, rest)) => decode_byte(input@) == Ok::<(u8, Seq<u8>), ProgramFailure>(
                    (value, rest@),
                ),
                Err(e) => decode_byte(input@) == Err::<(u8, Seq<u8>), ProgramFailure>(e),
            },
    {
        if !input.is_empty() {
            let (value, rest) = input.split_at(1);
            Ok((value[0], rest))
        } else {
            Err(ProgramFailure::from(MyFlashloanProgramError::InstructionUnpackError))
        }
    }

    /// Packs the instruction into a byte buffer.
    pub fn pack(&self) -> (buf: Vec<u8>)
        ensures
            buf@ == encode(self@),
    {
        let mut buf = Vec::new();
        match self {
            Self::InitMyFlashloanProgram {  } => {
                buf.push(0);
            },
            Self::ExecuteOperation { amount } => {
                buf.push(1);
                write_u64(&mut buf, *amount);
            },
            Self::MyFlashloanCall { amount, execute_operation_ix_data } => {
                buf.push(2);
                write_u64(&mut buf, *amount);
                buf.extend_from_slice(execute_operation_ix_data.as_slice());
            },
        }
        buf
    }
}

} // verus!
