//! Handing a balance record to the delegation service, and taking it back.
use vstd::prelude::*;

use crate::account::{Account, Programs};
use crate::action::{outcome, seeds_are, Action, ServiceCall};
use crate::custody::{deposit_check, initialize_ata_check, withdraw_check};
use crate::address::{opt_address_view, read_address, same_address};
use crate::error::ProgramError;
use crate::instruction::{delegate_payload_ok, DelegateArgs};
use crate::state::{ata_mint, ata_owner};
use crate::validate::{
    ata_initialized, balance_seeds, balance_signer, check_canonical, check_derived, derives,
    derives_canonically, holds_ata, is_token_account, load_ata, TOKEN_ACCOUNT_LEN,
};

verus! {

/// Whether delegate-balance-record succeeds. Accounts: the payer, the
/// balance record, this program, the delegation buffer, the delegation
/// record, the delegation metadata, the delegation service, the system
/// program. Payload: the record's bump, then an executor identity or nothing.
pub open spec fn delegate_ata_check(cfg: Programs, accounts: Seq<Account>, data: Seq<u8>) -> Result<
    (),
    ProgramError,
> {
    if !delegate_payload_ok(data) {
        Err(ProgramError::InvalidInstructionData)
    } else if accounts.len() < 8 {
        Err(ProgramError::NotEnoughAccountKeys)
    } else if !accounts[0].is_signer {
        Err(ProgramError::MissingRequiredSignature)
    } else if !holds_ata(cfg, accounts[1]) || !ata_initialized(accounts[1].data@) {
        Err(ProgramError::InvalidAccountData)
    } else if !derives(
        cfg.program_id@,
        seq![ata_owner(accounts[1].data@), ata_mint(accounts[1].data@)],
        data[0],
        accounts[1].address@,
    ) {
        Err(ProgramError::InvalidSeeds)
    } else {
        Ok(())
    }
}

/// The executor named by a delegation payload, if any.
pub open spec fn chosen_validator(data: Seq<u8>) -> Option<Seq<u8>> {
    if data.len() == 1 {
        None
    } else {
        Some(data.subrange(1, 33))
    }
}

/// What a successful delegate-balance-record asks for: the delegation of
/// the record under its seeds, and no write.
pub open spec fn delegate_ata_effect(cfg: Programs, accounts: Seq<Account>, data: Seq<u8>, a: Action) -> bool {
    &&& a.call matches Some(
        ServiceCall::Delegate {
            payer,
            account,
            owner_program,
            buffer,
            delegation_record,
            delegation_metadata,
            seeds,
            validator,
        },
    ) && payer == 0 && account == 1 && owner_program == 2 && buffer == 3 && delegation_record == 4
        && delegation_metadata == 5 && seeds_are(
        seeds,
        seq![ata_owner(accounts[1].data@), ata_mint(accounts[1].data@)],
        data[0],
    ) && opt_address_view(validator) == chosen_validator(data)
    &&& a.write is None
}

/// Hands the balance record to the delegation service; until it comes back
/// the service owns it, and this program's handlers refuse it.
pub fn process_delegate_ephemeral_ata(
    cfg: &Programs,
    accounts: &[Account],
    instruction_data: &[u8],
) -> (r: Result<Action, ProgramError>)
    ensures
        outcome(r) == delegate_ata_check(*cfg, accounts@, instruction_data@),
        r matches Ok(a) ==> delegate_ata_effect(*cfg, accounts@, instruction_data@, a),
{
    let args = DelegateArgs::try_from_bytes(instruction_data)?;
    if accounts.len() < 8 {
        return Err(ProgramError::NotEnoughAccountKeys);
    }
    if !accounts[0].is_signer {
        return Err(ProgramError::MissingRequiredSignature);
    }
    let ata = load_ata(cfg, &accounts[1])?;
    if !ata.is_initialized() {
        return Err(ProgramError::InvalidAccountData);
    }
    if !check_derived(
        &cfg.program_id,
        balance_seeds(&ata.owner, &ata.mint),
        args.bump(),
        &accounts[1].address,
    ) {
        return Err(ProgramError::InvalidSeeds);
    }
    let call = ServiceCall::Delegate {
        payer: 0,
        account: 1,
        owner_program: 2,
        buffer: 3,
        delegation_record: 4,
        delegation_metadata: 5,
        seeds: balance_signer(&ata.owner, &ata.mint, args.bump()),
        validator: args.validator(),
    };
    Ok(Action { call: Some(call), write: None })
}

/// Whether undelegate-balance-record succeeds. Accounts: the payer (the
/// record's owner), the owner's token account of the record's mint, the
/// balance record, the delegation context, the delegation service.
pub open spec fn undelegate_ata_check(cfg: Programs, accounts: Seq<Account>) -> Result<(), ProgramError> {
    if accounts.len() < 5 {
        Err(ProgramError::NotEnoughAccountKeys)
    } else if !accounts[0].is_signer {
        Err(ProgramError::MissingRequiredSignature)
    } else if !holds_ata(cfg, accounts[2]) || !ata_initialized(accounts[2].data@) {
        Err(ProgramError::InvalidAccountData)
    } else if !derives_canonically(
        cfg.program_id@,
        seq![accounts[0].address@, ata_mint(accounts[2].data@)],
        accounts[2].address@,
    ) {
        Err(ProgramError::InvalidSeeds)
    } else if !is_token_account(cfg, accounts[1]) || accounts[1].data@.subrange(0, 32) != ata_mint(
        accounts[2].data@,
    ) || accounts[1].data@.subrange(32, 64) != accounts[0].address@ {
        Err(ProgramError::InvalidAccountData)
    } else {
        Ok(())
    }
}

/// What a successful undelegate-balance-record asks for: the commit and
/// return of the record, and no write.
pub open spec fn undelegate_ata_effect(a: Action) -> bool {
    &&& a.call matches Some(
        ServiceCall::CommitAndUndelegate { payer, account, magic_context, magic_program },
    ) && payer == 0 && account == 2 && magic_context == 3 && magic_program == 4
    &&& a.write is None
}

/// Asks the delegation service to commit the balance record and give it
/// back, once the record is shown to be the payer's record of its mint.
pub fn process_undelegate_ephemeral_ata(
    cfg: &Programs,
    accounts: &[Account],
    instruction_data: &[u8],
) -> (r: Result<Action, ProgramError>)
    ensures
        outcome(r) == undelegate_ata_check(*cfg, accounts@),
        r matches Ok(a) ==> undelegate_ata_effect(a),
{
    if accounts.len() < 5 {
        return Err(ProgramError::NotEnoughAccountKeys);
    }
    let payer = &accounts[0];
    let token_info = &accounts[1];
    let ata_info = &accounts[2];
    if !payer.is_signer {
        return Err(ProgramError::MissingRequiredSignature);
    }
    let ata = load_ata(cfg, ata_info)?;
    if !ata.is_initialized() {
        return Err(ProgramError::InvalidAccountData);
    }
    if !check_canonical(&cfg.program_id, &balance_seeds(&payer.address, &ata.mint), &ata_info.address) {
        return Err(ProgramError::InvalidSeeds);
    }
    // The token account must be the payer's, for the record's mint.
    if token_info.data.len() != TOKEN_ACCOUNT_LEN || !same_address(&token_info.owner, &cfg.token_program) {
        return Err(ProgramError::InvalidAccountData);
    }
    let token_mint = read_address(token_info.data.as_slice(), 0);
    let token_owner = read_address(token_info.data.as_slice(), 32);
    if !same_address(&token_mint, &ata.mint) || !same_address(&token_owner, &payer.address) {
        return Err(ProgramError::InvalidAccountData);
    }
    let call = ServiceCall::CommitAndUndelegate {
        payer: 0,
        account: 2,
        magic_context: 3,
        magic_program: 4,
    };
    Ok(Action { call: Some(call), write: None })
}

/// Size of the header that precedes the restore arguments in the callback's
/// payload.
pub const CALLBACK_HEADER_LEN: usize = 7;

/// Whether the undelegation callback succeeds. Accounts: the delegated
/// record, the delegation buffer, the payer, the system program.
pub open spec fn undelegation_callback_check(accounts: Seq<Account>, data: Seq<u8>) -> Result<(), ProgramError> {
    if accounts.len() < 4 {
        Err(ProgramError::NotEnoughAccountKeys)
    } else if data.len() < CALLBACK_HEADER_LEN {
        Err(ProgramError::InvalidInstructionData)
    } else {
        Ok(())
    }
}

/// What a successful callback asks for: the restore of the record from the
/// buffer, with the payload after its header, and no write.
pub open spec fn undelegation_callback_effect(data: Seq<u8>, a: Action) -> bool {
    &&& a.call matches Some(
        ServiceCall::RestoreUndelegated { delegated, buffer, payer, callback_args },
    ) && delegated == 0 && buffer == 1 && payer == 2 && callback_args@ == data.subrange(
        CALLBACK_HEADER_LEN as int,
        data.len() as int,
    )
    &&& a.write is None
}

/// The bytes of `data` from `start` on.
pub fn bytes_from(data: &[u8], start: usize) -> (r: Vec<u8>)
    requires
        start <= data@.len(),
    ensures
        r@ == data@.subrange(start as int, data@.len() as int),
{
    let mut r: Vec<u8> = Vec::new();
    let mut i = start;
    while i < data.len()
        invariant
            start <= i <= data@.len(),
            r@ == data@.subrange(start as int, i as int),
        decreases data@.len() - i,
    {
        r.push(data[i]);
        i = i + 1;
        assert(r@ =~= data@.subrange(start as int, i as int));
    }
    r
}

/// Called by the delegation service once it gives a record back: forwards
/// the restore arguments to the service's restore routine. The service's own
/// authorization of the call is the trust boundary; nothing else is checked.
pub fn process_undelegation_callback(accounts: &[Account], instruction_data: &[u8]) -> (r: Result<
    Action,
    ProgramError,
>)
    ensures
        outcome(r) == undelegation_callback_check(accounts@, instruction_data@),
        r matches Ok(a) ==> undelegation_callback_effect(instruction_data@, a),
{
    if accounts.len() < 4 {
        return Err(ProgramError::NotEnoughAccountKeys);
    }
    if instruction_data.len() < CALLBACK_HEADER_LEN {
        return Err(ProgramError::InvalidInstructionData);
    }
    let call = ServiceCall::RestoreUndelegated {
        delegated: 0,
        buffer: 1,
        payer: 2,
        callback_args: bytes_from(instruction_data, CALLBACK_HEADER_LEN),
    };
    Ok(Action { call: Some(call), write: None })
}


/// Once the delegation service owns a balance record (as it does after a
/// successful delegate-balance-record, until the record comes back), every
/// deposit, withdraw, initialize or further delegation naming that record
/// fails.
pub proof fn lemma_delegated_record_refused(cfg: Programs, record: Account, accounts: Seq<Account>, data: Seq<u8>)
    requires
        cfg.delegation_program@ != cfg.program_id@,
        record.owner@ == cfg.delegation_program@,
    ensures
        accounts.len() > 0 && accounts[0] == record ==> deposit_check(cfg, accounts, data) is Err,
        accounts.len() > 0 && accounts[0] == record ==> withdraw_check(cfg, accounts, data) is Err,
        accounts.len() > 0 && accounts[0] == record ==> initialize_ata_check(cfg, accounts, data) is Err,
        accounts.len() > 1 && accounts[1] == record ==> delegate_ata_check(cfg, accounts, data) is Err,
        data.len() >= 8 && accounts.len() >= 6 && accounts[0] == record ==> deposit_check(
            cfg,
            accounts,
            data,
        ) == Err::<(), ProgramError>(ProgramError::InvalidAccountData),
        data.len() >= 9 && accounts.len() >= 5 && accounts[0] == record ==> withdraw_check(
            cfg,
            accounts,
            data,
        ) == Err::<(), ProgramError>(ProgramError::InvalidAccountData),
{
}

} // verus!
