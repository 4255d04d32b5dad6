use vstd::prelude::*;

use crate::address::Address;

verus! {

/// What the host shows this program of one account of an instruction.
pub struct Account {
    /// The account's address.
    pub address: Address,
    /// The program that owns the account at the host level.
    pub owner: Address,
    /// The account's balance of the host's native unit.
    pub lamports: u64,
    /// Whether the account signed the transaction.
    pub is_signer: bool,
    /// The account's data.
    pub data: Vec<u8>,
}

/// The identities of this program and of the services it calls, given by
/// the caller so that each can be replaced.
#[derive(Clone, Copy, Debug)]
pub struct Programs {
    /// This program; it owns the balance and vault records.
    pub program_id: Address,
    /// The delegation service; it owns a record while the record is delegated.
    pub delegation_program: Address,
    /// The permission service; it owns the permission records.
    pub permission_program: Address,
    /// The token-transfer service; it owns mints and token accounts.
    pub token_program: Address,
}

} // verus!
