//! The record that the program keeps in its own account, and its byte layout.
//!
//! | bytes    | field                                    |
//! |----------|------------------------------------------|
//! | `0`      | 1 once the record is populated, else 0   |
//! | `1..33`  | address of the initializer               |
//! | `33..65` | address of the controlled token account  |

use crate::error::ProgramFailure;
use vstd::prelude::*;

verus! {

/// Number of bytes in an account address.
pub const ADDRESS_LEN: usize = 32;

/// The record as a mathematical value.
pub struct ProgramRecord {
    pub initialized: bool,
    pub initializer: Seq<u8>,
    pub controlled_token_account: Seq<u8>,
}

impl ProgramRecord {
    /// Both addresses have the length of an address.
    pub open spec fn wf(self) -> bool {
        &&& self.initializer.len() == ADDRESS_LEN
        &&& self.controlled_token_account.len() == ADDRESS_LEN
    }
}

/// The bytes that hold `record`.
pub open spec fn encode_record(record: ProgramRecord) -> Seq<u8> {
    seq![if record.initialized { 1u8 } else { 0u8 }] + record.initializer
        + record.controlled_token_account
}

/// The record that the first 65 of `bytes` hold, or the failure that reading
/// them gives: a flag byte other than 0 and 1 is rejected.
pub open spec fn decode_record(bytes: Seq<u8>) -> Result<ProgramRecord, ProgramFailure>
    recommends
        bytes.len() >= MyFlashloanProgram::LEN,
{
    if bytes[0] == 0 || bytes[0] == 1 {
        Ok(
            ProgramRecord {
                initialized: bytes[0] == 1,
                initializer: bytes.subrange(1, 33),
                controlled_token_account: bytes.subrange(33, 65),
            },
        )
    } else {
        Err(ProgramFailure::InvalidAccountData)
    }
}

/// The record that `bytes` hold when they are exactly 65; any other length is
/// rejected like an illegal flag byte.
pub open spec fn decode_exact(bytes: Seq<u8>) -> Result<ProgramRecord, ProgramFailure> {
    if bytes.len() == MyFlashloanProgram::LEN {
        decode_record(bytes)
    } else {
        Err(ProgramFailure::InvalidAccountData)
    }
}

/// A well-formed record takes 65 bytes, and decoding them gives it back.
pub proof fn lemma_decode_encode_record(record: ProgramRecord)
    requires
        record.wf(),
    ensures
        encode_record(record).len() == MyFlashloanProgram::LEN,
        decode_record(encode_record(record)) == Ok::<ProgramRecord, ProgramFailure>(record),
{
    let bytes = encode_record(record);
    assert(bytes.subrange(1, 33) =~= record.initializer);
    assert(bytes.subrange(33, 65) =~= record.controlled_token_account);
}

/// Bytes that decode to a record are, over the first 65, the encoding of
/// that record.
pub proof fn lemma_encode_decode_record(bytes: Seq<u8>)
    requires
        bytes.len() >= MyFlashloanProgram::LEN,
        decode_record(bytes) is Ok,
    ensures
        decode_record(bytes)->Ok_0.wf(),
        encode_record(decode_record(bytes)->Ok_0) == bytes.subrange(0, 65),
{
    assert(encode_record(decode_record(bytes)->Ok_0) =~= bytes.subrange(0, 65));
}

/// The record of the program.
#[derive(Clone, Copy, Debug, PartialEq, Eq)]
pub struct MyFlashloanProgram {
    pub is_initialized: bool,
    pub initializer_pubkey: [u8; 32],
    pub flashloan_token_account_pubkey: [u8; 32],
}

impl View for MyFlashloanProgram {
    type V = ProgramRecord;

    open spec fn view(&self) -> ProgramRecord {
        ProgramRecord {
            initialized: self.is_initialized,
            initializer: self.initializer_pubkey@,
            controlled_token_account: self.flashloan_token_account_pubkey@,
        }
    }
}

/// Copies the address that starts at `offset` out of `src`.
fn read_address(src: &[u8], offset: usize) -> (address: [u8; 32])
    requires
        offset + 32 <= src.len(),
    ensures
        address@ == src@.subrange(offset as int, offset + 32),
{
    let mut address = [0u8;32];
    let mut i: usize = 0;
    while i < 32
        invariant
            i <= 32,
            offset + 32 <= src.len(),
            forall|j: int| 0 <= j < i ==> address@[j] == src@[offset + j],
        decreases 32 - i,
    {
        address[i] = src[offset + i];
        i += 1;
    }
    assert(address@ =~= src@.subrange(offset as int, offset + 32));
    address
}

/// Copies `address` into `dst`, starting at `offset`.
fn write_address(dst: &mut [u8], offset: usize, address: &[u8; 32])
    requires
        offset + 32 <= old(dst).len(),
    ensures
        final(dst)@ == old(dst)@.subrange(0, offset as int) + address@ + old(dst)@.subrange(
            offset + 32,
            old(dst)@.len() as int,
        ),
{
    let mut i: usize = 0;
    while i < 32
        invariant
            i <= 32,
            dst@.len() == old(dst)@.len(),
            offset + 32 <= dst.len(),
            forall|j: int| 0 <= j < offset ==> dst@[j] == old(dst)@[j],
            forall|j: int| 0 <= j < i ==> dst@[offset + j] == address@[j],
            forall|j: int| offset + i <= j < dst@.len() ==> dst@[j] == old(dst)@[j],
        decreases 32 - i,
    {
        dst[offset + i] = address[i];
        i += 1;
    }
    assert(dst@ =~= old(dst)@.subrange(0, offset as int) + address@ + old(dst)@.subrange(
        offset + 32,
        old(dst)@.len() as int,
    ));
}

impl MyFlashloanProgram {
    /// Number of bytes that a record takes.
    pub const LEN: usize = 65;

    /// Whether the record has been populated.
    pub fn is_initialized(&self) -> (initialized: bool)
        ensures
            initialized == self@.initialized,
    {
        self.is_initialized
    }

    /// Reads a record from the first 65 bytes of `src`.
    pub fn unpack_from_slice(src: &[u8]) -> (r: Result<Self, ProgramFailure>)
        requires
            src@.len() >= Self::LEN,
        ensures
            match r {
                Ok(record) => decode_record(src@) == Ok::<ProgramRecord, ProgramFailure>(record@),
                Err(e) => decode_record(src@) == Err::<ProgramRecord, ProgramFailure>(e),
            },
    {
        let is_initialized = match src[0] {
            0 => false,
            1 => true,
            _ => return Err(ProgramFailure::InvalidAccountData),
        };
        Ok(
            MyFlashloanProgram {
                is_initialized,
                initializer_pubkey: read_address(src, 1),
                flashloan_token_account_pubkey: read_address(src, 33),
            },
        )
    }

    /// Writes the record over the first 65 bytes of `dst`.
    pub fn pack_into_slice(&self, dst: &mut [u8])
        requires
            old(dst)@.len() >= Self::LEN,
        ensures
            final(dst)@ == encode_record(self@) + old(dst)@.subrange(65, old(dst)@.len() as int),
    {
        dst[0] = if self.is_initialized { 1 } else { 0 };
        write_address(dst, 1, &self.initializer_pubkey);
        write_address(dst, 33, &self.flashloan_token_account_pubkey);
        assert(dst@ =~= encode_record(self@) + old(dst)@.subrange(65, old(dst)@.len() as int));
    }

    /// Reads a record from `input`, which has to be exactly 65 bytes long.
    pub fn unpack_unchecked(input: &[u8]) -> (r: Result<Self, ProgramFailure>)
        ensures
            match r {
                Ok(record) => decode_exact(input@) == Ok::<ProgramRecord, ProgramFailure>(record@),
                Err(e) => decode_exact(input@) == Err::<ProgramRecord, ProgramFailure>(e),
            },
    {
        if input.len() != Self::LEN {
            return Err(ProgramFailure::InvalidAccountData);
        }
        Self::unpack_from_slice(input)
    }

    /// Writes `src` into `dst`, which has to be exactly 65 bytes long.
    pub fn pack(src: Self, dst: &mut [u8]) -> (r: Result<(), ProgramFailure>)
        ensures
            match r {
                Ok(_) => old(dst)@.len() == Self::LEN && final(dst)@ == encode_record(src@),
                Err(e) => e == ProgramFailure::InvalidAccountData && old(dst)@.len() != Self::LEN
                    && final(dst)@ == old(dst)@,
            },
    {
        if dst.len() != Self::LEN {
            return Err(ProgramFailure::InvalidAccountData);
        }
        src.pack_into_slice(dst);
        Ok(())
    }
}

} // verus!
