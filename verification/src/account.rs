//! What the processor reads from the accounts that come with an instruction.

use vstd::prelude::*;

verus! {

/// An account as handed to the program.
#[derive(Debug, PartialEq, Eq)]
pub struct Account {
    /// Address of the account.
    pub key: [u8; 32],
    /// Whether the account signed the transaction.
    pub is_signer: bool,
    /// The bytes stored in the account.
    pub data: Vec<u8>,
}

/// An account as a mathematical value.
pub struct AccountState {
    pub key: [u8; 32],
    pub is_signer: bool,
    pub data: Seq<u8>,
}

impl View for Account {
    type V = AccountState;

    open spec fn view(&self) -> AccountState {
        AccountState { key: self.key, is_signer: self.is_signer, data: self.data@ }
    }
}

/// The accounts of an instruction as mathematical values, in order.
pub open spec fn states(accounts: Seq<Account>) -> Seq<AccountState> {
    accounts.map_values(|account: Account| account@)
}

/// What the rent sysvar says of the record account.
#[derive(Clone, Copy, Debug, PartialEq, Eq, Structural)]
pub enum RentStatus {
    /// The account that stands for the rent sysvar could not be read as one.
    Unreadable,
    /// The balance of the record account does not cover its size.
    NotExempt,
    /// The balance of the record account covers its size.
    Exempt,
}

} // verus!
