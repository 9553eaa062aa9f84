//! Requests to the token program, and the address that the program signs for.

use crate::state::ADDRESS_LEN;
use solana_program::pubkey::Pubkey;
use spl_token::instruction;
use vstd::prelude::*;

verus! {

/// The failure type of the client libraries that this module calls.
#[verifier::external_type_specification]
#[verifier::external_body]
pub struct ExProgramError(solana_program::program_error::ProgramError);

/// Address of the token program, `TokenkegQfeZyiNwAJbNbGKPFXCWuBvf9Ss623VQ5DA`.
pub const TOKEN_PROGRAM_ID: [u8; 32] = [
    6, 221, 246, 225, 215, 101, 161, 147, 217, 203, 225, 70, 206, 235, 121, 172,
    28, 180, 133, 237, 95, 91, 55, 145, 58, 140, 245, 133, 126, 255, 0, 169,
];

/// The kinds of authority over a mint or a token account.
#[derive(Clone, Copy, Debug, PartialEq, Eq, Structural)]
pub enum AuthorityType {
    /// Authority to mint new tokens.
    MintTokens,
    /// Authority to freeze any account of the mint.
    FreezeAccount,
    /// Owner of a token account.
    AccountOwner,
    /// Authority to close a token account.
    CloseAccount,
}

impl AuthorityType {
    /// The byte that stands for the kind in a request.
    pub open spec fn tag(self) -> u8 {
        match self {
            AuthorityType::MintTokens => 0,
            AuthorityType::FreezeAccount => 1,
            AuthorityType::AccountOwner => 2,
            AuthorityType::CloseAccount => 3,
        }
    }
}

/// An account that a request names, and how the request uses it.
#[derive(Clone, Copy, Debug, PartialEq, Eq)]
pub struct AccountMeta {
    pub pubkey: [u8; 32],
    pub is_signer: bool,
    pub is_writable: bool,
}

/// A request to another program.
#[derive(Debug, PartialEq, Eq)]
pub struct Instruction {
    pub program_id: [u8; 32],
    pub accounts: Vec<AccountMeta>,
    pub data: Vec<u8>,
}

/// A request as a mathematical value.
pub struct Request {
    pub program_id: [u8; 32],
    pub accounts: Seq<AccountMeta>,
    pub data: Seq<u8>,
}

impl View for Instruction {
    type V = Request;

    open spec fn view(&self) -> Request {
        Request { program_id: self.program_id, accounts: self.accounts@, data: self.data@ }
    }
}

/// The request that makes `new_authority` the authority of kind
/// `authority_type` over `owned`, on behalf of the present authority `owner`
/// and signed by `signer`.
pub open spec fn authority_request(
    token_program_id: [u8; 32],
    owned: [u8; 32],
    new_authority: Seq<u8>,
    authority_type: AuthorityType,
    owner: [u8; 32],
    signer: [u8; 32],
) -> Request {
    Request {
        program_id: token_program_id,
        accounts: seq![
            AccountMeta { pubkey: owned, is_signer: false, is_writable: true },
            AccountMeta { pubkey: owner, is_signer: false, is_writable: false },
            AccountMeta { pubkey: signer, is_signer: true, is_writable: false },
        ],
        data: seq![6u8, authority_type.tag(), 1u8] + new_authority,
    }
}

/// Calls `spl_token::instruction::set_authority` with one signer.
///
/// Trusted: the call fails exactly when `token_program_id` is not the
/// address of the token program; when it succeeds, the request is addressed
/// to the token program, names `owned` as writable, `owner` as read-only and
/// `signer` as a read-only signer, and its data is the tag 6, the tag of the
/// authority type, a 1 and the bytes of `new_authority`.
#[verifier::external_body]
pub(crate) fn set_authority(
    token_program_id: &[u8; 32],
    owned: &[u8; 32],
    new_authority: &[u8; 32],
    authority_type: AuthorityType,
    owner: &[u8; 32],
    signer: &[u8; 32],
) -> (r: Result<Instruction, solana_program::program_error::ProgramError>)
    ensures
        r is Ok <==> token_program_id@ == TOKEN_PROGRAM_ID@,
        r matches Ok(instruction) ==> instruction@ == authority_request(
            *token_program_id,
            *owned,
            new_authority@,
            authority_type,
            *owner,
            *signer,
        ),
{
    let kind = match authority_type {
        AuthorityType::MintTokens => instruction::AuthorityType::MintTokens,
        AuthorityType::FreezeAccount => instruction::AuthorityType::FreezeAccount,
        AuthorityType::AccountOwner => instruction::AuthorityType::AccountOwner,
        AuthorityType::CloseAccount => instruction::AuthorityType::CloseAccount,
    };
    let key = Pubkey::new_from_array;
    let (new_authority, owner, signer) = (key(*new_authority), key(*owner), key(*signer));
    let built = instruction::set_authority(&key(*token_program_id), &key(*owned), Some(&new_authority), kind, &owner, &[&signer])?;
    let accounts = built.accounts.iter().map(|m| AccountMeta { pubkey: m.pubkey.to_bytes(), is_signer: m.is_signer, is_writable: m.is_writable }).collect();
    Ok(Instruction { program_id: built.program_id.to_bytes(), accounts, data: built.data })
}

/// The seed from which the address of the program is derived: the bytes of
/// `my_flashloan_program`.
pub const AUTHORITY_SEED: [u8; 20] = [
    0x6d, 0x79, 0x5f, 0x66, 0x6c, 0x61, 0x73, 0x68, 0x6c, 0x6f,
    0x61, 0x6e, 0x5f, 0x70, 0x72, 0x6f, 0x67, 0x72, 0x61, 0x6d,
];

/// What `Pubkey::try_find_program_address` returns for one seed and a
/// program: the derived address with its bump seed, or nothing when the seed
/// is longer than 32 bytes or no bump seed gives an address off the curve.
pub uninterp spec fn program_address(seed: Seq<u8>, program_id: Seq<u8>) -> Option<(Seq<u8>, u8)>;

/// Calls `Pubkey::try_find_program_address` with the single seed `seed`.
///
/// Trusted: the call returns on every input, and what it returns depends on
/// the seed and the program alone.
#[verifier::external_body]
pub(crate) fn find_program_address(seed: &[u8], program_id: &[u8; 32]) -> (r: Option<([u8; 32], u8)>)
    ensures
        match r {
            Some((address, bump)) => program_address(seed@, program_id@) == Some((address@, bump)),
            None => program_address(seed@, program_id@) is None,
        },
{
    let found = Pubkey::try_find_program_address(&[seed], &Pubkey::new_from_array(*program_id))?;
    Some((found.0.to_bytes(), found.1))
}

} // verus!
