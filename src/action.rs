//! What a handler asks of the host once its checks have passed: at most one
//! call into an outside service, then at most one record to write.
use vstd::prelude::*;

use crate::address::Address;
use crate::error::ProgramError;
use crate::flags::Member;

verus! {

/// The seeds of a derived address, without its bump, and the bump.
pub struct DerivedSeeds {
    pub seeds: Vec<Vec<u8>>,
    pub bump: u8,
}

/// Whether `s` holds exactly `seeds` and `bump`.
pub open spec fn seeds_are(s: DerivedSeeds, seeds: Seq<Seq<u8>>, bump: u8) -> bool {
    s.seeds.deep_view() == seeds && s.bump == bump
}

/// A call into an outside service. Accounts are named by their position in
/// the instruction's account list.
pub enum ServiceCall {
    /// Create `account` with `space` bytes, funded by `payer` with the
    /// rent-exempt minimum and assigned to `owner`; the account signs with
    /// `seeds`.
    CreateAccount { payer: usize, account: usize, space: u64, owner: Address, seeds: DerivedSeeds },
    /// Move `amount` tokens of `mint` from `from` to `to`, authorized by
    /// `authority`, which signs with `signer` when it is a derived address.
    TransferChecked {
        mint: usize,
        from: usize,
        to: usize,
        authority: usize,
        amount: u64,
        decimals: u8,
        signer: Option<DerivedSeeds>,
    },
    /// Hand `account` to the delegation service, for the executor
    /// `validator` if one is named.
    Delegate {
        payer: usize,
        account: usize,
        owner_program: usize,
        buffer: usize,
        delegation_record: usize,
        delegation_metadata: usize,
        seeds: DerivedSeeds,
        validator: Option<Address>,
    },
    /// Ask the delegation service to commit `account` and give it back.
    CommitAndUndelegate { payer: usize, account: usize, magic_context: usize, magic_program: usize },
    /// Restore `delegated` from the delegation service's `buffer`.
    RestoreUndelegated { delegated: usize, buffer: usize, payer: usize, callback_args: Vec<u8> },
    /// Create the permission record of `permissioned` with one member.
    CreatePermission {
        permissioned: usize,
        permission: usize,
        payer: usize,
        system_program: usize,
        member: Member,
        seeds: DerivedSeeds,
    },
    /// Replace the members of the permission record by one member.
    UpdatePermission {
        authority: usize,
        permissioned: usize,
        permission: usize,
        member: Member,
        seeds: DerivedSeeds,
    },
    /// Close the permission record, returning its balance to `payer`.
    ClosePermission { payer: usize, permissioned: usize, permission: usize, seeds: DerivedSeeds },
    /// Hand the permission record to the delegation service.
    DelegatePermission {
        payer: usize,
        permissioned: usize,
        permission_program: usize,
        permission: usize,
        system_program: usize,
        buffer: usize,
        delegation_record: usize,
        delegation_metadata: usize,
        delegation_program: usize,
        validator_account: usize,
        seeds: DerivedSeeds,
    },
    /// Ask the delegation service to commit the permission record and give it back.
    CommitAndUndelegatePermission {
        payer: usize,
        permissioned: usize,
        permission: usize,
        magic_program: usize,
        magic_context: usize,
    },
}

/// New bytes for the record held by the account at position `account`.
pub struct RecordWrite {
    pub account: usize,
    pub data: Vec<u8>,
}

/// The outcome of a handler whose checks passed: the host performs `call`
/// first, and writes `write` only once the call has succeeded.
pub struct Action {
    pub call: Option<ServiceCall>,
    pub write: Option<RecordWrite>,
}

/// Whether `a` asks for nothing at all.
pub open spec fn is_nothing(a: Action) -> bool {
    a.call is None && a.write is None
}

/// Whether `a` writes exactly `data` into the account at `account`.
pub open spec fn writes(a: Action, account: usize, data: Seq<u8>) -> bool {
    a.write matches Some(w) && w.account == account && w.data@ == data
}

/// Whether a handler succeeded, and with which error it failed if not.
pub open spec fn outcome(r: Result<Action, ProgramError>) -> Result<(), ProgramError> {
    match r {
        Ok(_) => Ok(()),
        Err(e) => Err(e),
    }
}

impl Action {
    /// An action that asks for nothing.
    pub fn nothing() -> (r: Action)
        ensures
            is_nothing(r),
    {
        Action { call: None, write: None }
    }
}

} // verus!
