//! The access-control record attached to each balance record: creation,
//! update, reset, closing, and its trips to the delegation service.
use vstd::prelude::*;

use crate::account::{Account, Programs};
use crate::action::{outcome, seeds_are, Action, ServiceCall};
use crate::address::same_address;
use crate::error::ProgramError;
use crate::flags::{bits_of_flag_bytes, has_flag, lemma_set_flag, Member, MemberFlags, AUTHORITY};
use crate::instruction::{
    CloseEphemeralAtaPermission, CreateEphemeralAtaPermission, DelegatePermissionArgs,
    ResetEphemeralAtaPermission, UpdateEphemeralAtaPermission,
};
use crate::state::{ata_mint, ata_owner, EphemeralAta};
use crate::validate::{
    ata_initialized, balance_signer, balance_seeds, check_canonical, check_derived, derives,
    holds_ata, is_permission_of, load_ata, permission_seeds,
};

verus! {

/// Whether the account holds an initialized balance record of this program.
pub open spec fn holds_live_ata(cfg: Programs, a: Account) -> bool {
    holds_ata(cfg, a) && ata_initialized(a.data@)
}

/// Whether `permission` is the permission record of the balance record
/// `record`, and `bump` derives the balance record's address from its owner
/// and mint.
pub open spec fn permission_addresses_ok(cfg: Programs, record: Account, permission: Account, bump: u8) -> bool {
    &&& is_permission_of(cfg, record.address@, permission.address@)
    &&& derives(
        cfg.program_id@,
        seq![ata_owner(record.data@), ata_mint(record.data@)],
        bump,
        record.address@,
    )
}

/// Whether the member is the record's owner with exactly `bits`.
pub open spec fn is_owner_member(m: Member, record: Account, bits: u8) -> bool {
    m.pubkey@ == ata_owner(record.data@) && m.flags.bits == bits
}

/// Loads the balance record held by `record` and checks that it is
/// initialized.
fn load_live_ata(cfg: &Programs, record: &Account) -> (r: Result<EphemeralAta, ProgramError>)
    ensures
        !holds_live_ata(*cfg, *record) ==> r == Err::<EphemeralAta, ProgramError>(
            ProgramError::InvalidAccountData,
        ),
        holds_live_ata(*cfg, *record) ==> (r matches Ok(a) && a.owner@ == ata_owner(record.data@)
            && a.mint@ == ata_mint(record.data@)),
{
    let ata = load_ata(cfg, record)?;
    if !ata.is_initialized() {
        return Err(ProgramError::InvalidAccountData);
    }
    Ok(ata)
}

/// Checks the permission record's address against the balance record's, and
/// the balance record's address against its seeds and `bump`.
fn check_permission_addresses(
    cfg: &Programs,
    record: &Account,
    ata: &EphemeralAta,
    permission: &Account,
    bump: u8,
) -> (r: bool)
    requires
        ata.owner@ == ata_owner(record.data@),
        ata.mint@ == ata_mint(record.data@),
    ensures
        r == permission_addresses_ok(*cfg, *record, *permission, bump),
{
    check_canonical(&cfg.permission_program, &permission_seeds(&record.address), &permission.address)
        && check_derived(&cfg.program_id, balance_seeds(&ata.owner, &ata.mint), bump, &record.address)
}

/// Whether create-permission succeeds. Accounts: the balance record, the
/// permission record, the payer (the record's owner), the system program,
/// the permission service. Payload: the record's bump, then five flag bytes.
pub open spec fn create_permission_check(cfg: Programs, accounts: Seq<Account>, data: Seq<u8>) -> Result<
    (),
    ProgramError,
> {
    if data.len() < 6 {
        Err(ProgramError::InvalidInstructionData)
    } else if accounts.len() < 5 {
        Err(ProgramError::NotEnoughAccountKeys)
    } else if !accounts[2].is_signer {
        Err(ProgramError::MissingRequiredSignature)
    } else if accounts[4].address@ != cfg.permission_program@ {
        Err(ProgramError::InvalidAccountData)
    } else if !holds_live_ata(cfg, accounts[0]) {
        Err(ProgramError::InvalidAccountData)
    } else if ata_owner(accounts[0].data@) != accounts[2].address@ {
        Err(ProgramError::InvalidAccountData)
    } else if !permission_addresses_ok(cfg, accounts[0], accounts[1], data[0]) {
        Err(ProgramError::InvalidSeeds)
    } else {
        Ok(())
    }
}

/// What a successful create-permission asks for: nothing where the
/// permission record exists (holds a balance); otherwise its creation with
/// the owner as the one member, with the flags of the payload.
pub open spec fn create_permission_effect(accounts: Seq<Account>, data: Seq<u8>, a: Action) -> bool {
    if accounts[1].lamports > 0 {
        a.call is None && a.write is None
    } else {
        &&& a.call matches Some(
            ServiceCall::CreatePermission {
                permissioned,
                permission,
                payer,
                system_program,
                member,
                seeds,
            },
        ) && permissioned == 0 && permission == 1 && payer == 2 && system_program == 3
            && is_owner_member(member, accounts[0], bits_of_flag_bytes(data.subrange(1, 6)))
            && seeds_are(
            seeds,
            seq![ata_owner(accounts[0].data@), ata_mint(accounts[0].data@)],
            data[0],
        )
        &&& a.write is None
    }
}

/// Creates the permission record of a balance record, with its owner as the
/// first member; does nothing where the permission record exists.
pub fn process_create_ephemeral_ata_permission(
    cfg: &Programs,
    accounts: &[Account],
    instruction_data: &[u8],
) -> (r: Result<Action, ProgramError>)
    ensures
        outcome(r) == create_permission_check(*cfg, accounts@, instruction_data@),
        r matches Ok(a) ==> create_permission_effect(accounts@, instruction_data@, a),
{
    let args = CreateEphemeralAtaPermission::try_from_bytes(instruction_data)?;
    if accounts.len() < 5 {
        return Err(ProgramError::NotEnoughAccountKeys);
    }
    let ata_info = &accounts[0];
    let permission_info = &accounts[1];
    let payer_info = &accounts[2];
    if !payer_info.is_signer {
        return Err(ProgramError::MissingRequiredSignature);
    }
    if !same_address(&accounts[4].address, &cfg.permission_program) {
        return Err(ProgramError::InvalidAccountData);
    }
    let ata = load_live_ata(cfg, ata_info)?;
    if !same_address(&ata.owner, &payer_info.address) {
        return Err(ProgramError::InvalidAccountData);
    }
    if !check_permission_addresses(cfg, ata_info, &ata, permission_info, args.bump()) {
        return Err(ProgramError::InvalidSeeds);
    }
    // Idempotent: the permission record exists already.
    if permission_info.lamports > 0 {
        return Ok(Action::nothing());
    }
    let member = Member {
        flags: MemberFlags::from_acl_flags_bytes(args.flags_bytes()),
        pubkey: ata.owner,
    };
    let call = ServiceCall::CreatePermission {
        permissioned: 0,
        permission: 1,
        payer: 2,
        system_program: 3,
        member,
        seeds: balance_signer(&ata.owner, &ata.mint, args.bump()),
    };
    Ok(Action { call: Some(call), write: None })
}

/// Whether update-permission succeeds. Accounts: the payer (the record's
/// owner), the balance record, the permission record, the permission
/// service. Payload: the record's bump, then the flag byte.
pub open spec fn update_permission_check(cfg: Programs, accounts: Seq<Account>, data: Seq<u8>) -> Result<
    (),
    ProgramError,
> {
    if data.len() < 2 {
        Err(ProgramError::InvalidInstructionData)
    } else if accounts.len() < 4 {
        Err(ProgramError::NotEnoughAccountKeys)
    } else if !accounts[0].is_signer {
        Err(ProgramError::MissingRequiredSignature)
    } else if accounts[3].address@ != cfg.permission_program@ {
        Err(ProgramError::InvalidAccountData)
    } else if !holds_live_ata(cfg, accounts[1]) {
        Err(ProgramError::InvalidAccountData)
    } else if ata_owner(accounts[1].data@) != accounts[0].address@ {
        Err(ProgramError::IncorrectAuthority)
    } else if !permission_addresses_ok(cfg, accounts[1], accounts[2], data[0]) {
        Err(ProgramError::InvalidSeeds)
    } else {
        Ok(())
    }
}

/// What a successful update-permission asks for: the member list replaced
/// by the owner alone, with the flags of the payload.
pub open spec fn update_permission_effect(accounts: Seq<Account>, data: Seq<u8>, a: Action) -> bool {
    &&& a.call matches Some(
        ServiceCall::UpdatePermission { authority, permissioned, permission, member, seeds },
    ) && authority == 0 && permissioned == 1 && permission == 2 && is_owner_member(
        member,
        accounts[1],
        data[1],
    ) && seeds_are(seeds, seq![ata_owner(accounts[1].data@), ata_mint(accounts[1].data@)], data[0])
    &&& a.write is None
}

/// Replaces the members of the permission record by the owner, with the
/// flags given.
pub fn process_update_ephemeral_ata_permission(
    cfg: &Programs,
    accounts: &[Account],
    instruction_data: &[u8],
) -> (r: Result<Action, ProgramError>)
    ensures
        outcome(r) == update_permission_check(*cfg, accounts@, instruction_data@),
        r matches Ok(a) ==> update_permission_effect(accounts@, instruction_data@, a),
{
    let args = UpdateEphemeralAtaPermission::try_from_bytes(instruction_data)?;
    if accounts.len() < 4 {
        return Err(ProgramError::NotEnoughAccountKeys);
    }
    let payer_info = &accounts[0];
    let ata_info = &accounts[1];
    let permission_info = &accounts[2];
    if !payer_info.is_signer {
        return Err(ProgramError::MissingRequiredSignature);
    }
    if !same_address(&accounts[3].address, &cfg.permission_program) {
        return Err(ProgramError::InvalidAccountData);
    }
    let ata = load_live_ata(cfg, ata_info)?;
    if !same_address(&ata.owner, &payer_info.address) {
        return Err(ProgramError::IncorrectAuthority);
    }
    if !check_permission_addresses(cfg, ata_info, &ata, permission_info, args.bump()) {
        return Err(ProgramError::InvalidSeeds);
    }
    let member = Member { flags: MemberFlags::from_acl_flag_byte(args.flag_byte()), pubkey: ata.owner };
    let call = ServiceCall::UpdatePermission {
        authority: 0,
        permissioned: 1,
        permission: 2,
        member,
        seeds: balance_signer(&ata.owner, &ata.mint, args.bump()),
    };
    Ok(Action { call: Some(call), write: None })
}

/// Whether reset-permission succeeds. Accounts: the balance record, the
/// permission record, the record's owner, the permission service. Payload:
/// the record's bump, then the flag byte.
pub open spec fn reset_permission_check(cfg: Programs, accounts: Seq<Account>, data: Seq<u8>) -> Result<
    (),
    ProgramError,
> {
    if data.len() < 2 {
        Err(ProgramError::InvalidInstructionData)
    } else if accounts.len() < 4 {
        Err(ProgramError::NotEnoughAccountKeys)
    } else if !accounts[2].is_signer {
        Err(ProgramError::MissingRequiredSignature)
    } else if accounts[3].address@ != cfg.permission_program@ {
        Err(ProgramError::InvalidAccountData)
    } else if !holds_live_ata(cfg, accounts[0]) {
        Err(ProgramError::InvalidAccountData)
    } else if ata_owner(accounts[0].data@) != accounts[2].address@ {
        Err(ProgramError::IncorrectAuthority)
    } else if !permission_addresses_ok(cfg, accounts[0], accounts[1], data[0]) {
        Err(ProgramError::InvalidSeeds)
    } else if accounts[1].lamports == 0 {
        Err(ProgramError::InvalidAccountData)
    } else {
        Ok(())
    }
}

/// What a successful reset-permission asks for: the member list replaced by
/// the owner alone, with the flags of the payload and the authority flag.
pub open spec fn reset_permission_effect(accounts: Seq<Account>, data: Seq<u8>, a: Action) -> bool {
    &&& a.call matches Some(
        ServiceCall::UpdatePermission { authority, permissioned, permission, member, seeds },
    ) && authority == 2 && permissioned == 0 && permission == 1 && is_owner_member(
        member,
        accounts[0],
        data[1] | AUTHORITY,
    ) && seeds_are(seeds, seq![ata_owner(accounts[0].data@), ata_mint(accounts[0].data@)], data[0])
    &&& a.write is None
}

/// Like update-permission, but the owner keeps the authority flag whatever
/// the flags given.
pub fn process_reset_ephemeral_ata_permission(
    cfg: &Programs,
    accounts: &[Account],
    instruction_data: &[u8],
) -> (r: Result<Action, ProgramError>)
    ensures
        outcome(r) == reset_permission_check(*cfg, accounts@, instruction_data@),
        r matches Ok(a) ==> reset_permission_effect(accounts@, instruction_data@, a),
{
    let args = ResetEphemeralAtaPermission::try_from_bytes(instruction_data)?;
    if accounts.len() < 4 {
        return Err(ProgramError::NotEnoughAccountKeys);
    }
    let ata_info = &accounts[0];
    let permission_info = &accounts[1];
    let owner_info = &accounts[2];
    if !owner_info.is_signer {
        return Err(ProgramError::MissingRequiredSignature);
    }
    if !same_address(&accounts[3].address, &cfg.permission_program) {
        return Err(ProgramError::InvalidAccountData);
    }
    let ata = load_live_ata(cfg, ata_info)?;
    if !same_address(&ata.owner, &owner_info.address) {
        return Err(ProgramError::IncorrectAuthority);
    }
    if !check_permission_addresses(cfg, ata_info, &ata, permission_info, args.bump()) {
        return Err(ProgramError::InvalidSeeds);
    }
    if permission_info.lamports == 0 {
        return Err(ProgramError::InvalidAccountData);
    }
    let mut flags = MemberFlags::from_acl_flag_byte(args.flag_byte());
    flags.set(AUTHORITY);
    let member = Member { flags, pubkey: ata.owner };
    let call = ServiceCall::UpdatePermission {
        authority: 2,
        permissioned: 0,
        permission: 1,
        member,
        seeds: balance_signer(&ata.owner, &ata.mint, args.bump()),
    };
    Ok(Action { call: Some(call), write: None })
}

/// Whether close-permission succeeds. Accounts: the payer (the record's
/// owner), the balance record, the permission record, the permission
/// service. Payload: the record's bump.
pub open spec fn close_permission_check(cfg: Programs, accounts: Seq<Account>, data: Seq<u8>) -> Result<
    (),
    ProgramError,
> {
    if data.len() < 1 {
        Err(ProgramError::InvalidInstructionData)
    } else if accounts.len() < 4 {
        Err(ProgramError::NotEnoughAccountKeys)
    } else if !accounts[0].is_signer {
        Err(ProgramError::MissingRequiredSignature)
    } else if accounts[3].address@ != cfg.permission_program@ {
        Err(ProgramError::InvalidAccountData)
    } else if !holds_live_ata(cfg, accounts[1]) {
        Err(ProgramError::InvalidAccountData)
    } else if ata_owner(accounts[1].data@) != accounts[0].address@ {
        Err(ProgramError::InvalidAccountData)
    } else if !permission_addresses_ok(cfg, accounts[1], accounts[2], data[0]) {
        Err(ProgramError::InvalidSeeds)
    } else {
        Ok(())
    }
}

/// What a successful close-permission asks for: the closing of the
/// permission record.
pub open spec fn close_permission_effect(accounts: Seq<Account>, data: Seq<u8>, a: Action) -> bool {
    &&& a.call matches Some(ServiceCall::ClosePermission { payer, permissioned, permission, seeds })
        && payer == 0 && permissioned == 1 && permission == 2 && seeds_are(
        seeds,
        seq![ata_owner(accounts[1].data@), ata_mint(accounts[1].data@)],
        data[0],
    )
    &&& a.write is None
}

/// Closes the permission record; only the balance record's owner may.
pub fn process_close_ephemeral_ata_permission(
    cfg: &Programs,
    accounts: &[Account],
    instruction_data: &[u8],
) -> (r: Result<Action, ProgramError>)
    ensures
        outcome(r) == close_permission_check(*cfg, accounts@, instruction_data@),
        r matches Ok(a) ==> close_permission_effect(accounts@, instruction_data@, a),
{
    let args = CloseEphemeralAtaPermission::try_from_bytes(instruction_data)?;
    if accounts.len() < 4 {
        return Err(ProgramError::NotEnoughAccountKeys);
    }
    let payer_info = &accounts[0];
    let ata_info = &accounts[1];
    let permission_info = &accounts[2];
    if !payer_info.is_signer {
        return Err(ProgramError::MissingRequiredSignature);
    }
    if !same_address(&accounts[3].address, &cfg.permission_program) {
        return Err(ProgramError::InvalidAccountData);
    }
    let ata = load_live_ata(cfg, ata_info)?;
    if !same_address(&ata.owner, &payer_info.address) {
        return Err(ProgramError::InvalidAccountData);
    }
    if !check_permission_addresses(cfg, ata_info, &ata, permission_info, args.bump()) {
        return Err(ProgramError::InvalidSeeds);
    }
    let call = ServiceCall::ClosePermission {
        payer: 0,
        permissioned: 1,
        permission: 2,
        seeds: balance_signer(&ata.owner, &ata.mint, args.bump()),
    };
    Ok(Action { call: Some(call), write: None })
}

/// Whether delegate-permission succeeds. Accounts: the payer, the balance
/// record, the permission service, the permission record, the system
/// program, the delegation buffer, the delegation record, the delegation
/// metadata, the delegation service, the executor. Payload: the record's bump.
pub open spec fn delegate_permission_check(cfg: Programs, accounts: Seq<Account>, data: Seq<u8>) -> Result<
    (),
    ProgramError,
> {
    if data.len() < 1 {
        Err(ProgramError::InvalidInstructionData)
    } else if accounts.len() < 10 {
        Err(ProgramError::NotEnoughAccountKeys)
    } else if !accounts[0].is_signer {
        Err(ProgramError::MissingRequiredSignature)
    } else if accounts[2].address@ != cfg.permission_program@ {
        Err(ProgramError::InvalidAccountData)
    } else if !holds_live_ata(cfg, accounts[1]) {
        Err(ProgramError::InvalidAccountData)
    } else if !permission_addresses_ok(cfg, accounts[1], accounts[3], data[0]) {
        Err(ProgramError::InvalidSeeds)
    } else {
        Ok(())
    }
}

/// What a successful delegate-permission asks for: the delegation of the
/// permission record, signed by the balance record.
pub open spec fn delegate_permission_effect(accounts: Seq<Account>, data: Seq<u8>, a: Action) -> bool {
    &&& a.call matches Some(
        ServiceCall::DelegatePermission {
            payer,
            permissioned,
            permission_program,
            permission,
            system_program,
            buffer,
            delegation_record,
            delegation_metadata,
            delegation_program,
            validator_account,
            seeds,
        },
    ) && payer == 0 && permissioned == 1 && permission_program == 2 && permission == 3
        && system_program == 4 && buffer == 5 && delegation_record == 6 && delegation_metadata == 7
        && delegation_program == 8 && validator_account == 9 && seeds_are(
        seeds,
        seq![ata_owner(accounts[1].data@), ata_mint(accounts[1].data@)],
        data[0],
    )
    &&& a.write is None
}

/// Hands the permission record to the delegation service.
pub fn process_delegate_ephemeral_ata_permission(
    cfg: &Programs,
    accounts: &[Account],
    instruction_data: &[u8],
) -> (r: Result<Action, ProgramError>)
    ensures
        outcome(r) == delegate_permission_check(*cfg, accounts@, instruction_data@),
        r matches Ok(a) ==> delegate_permission_effect(accounts@, instruction_data@, a),
{
    let args = DelegatePermissionArgs::try_from_bytes(instruction_data)?;
    if accounts.len() < 10 {
        return Err(ProgramError::NotEnoughAccountKeys);
    }
    if !accounts[0].is_signer {
        return Err(ProgramError::MissingRequiredSignature);
    }
    if !same_address(&accounts[2].address, &cfg.permission_program) {
        return Err(ProgramError::InvalidAccountData);
    }
    let ata = load_live_ata(cfg, &accounts[1])?;
    if !check_permission_addresses(cfg, &accounts[1], &ata, &accounts[3], args.bump()) {
        return Err(ProgramError::InvalidSeeds);
    }
    let call = ServiceCall::DelegatePermission {
        payer: 0,
        permissioned: 1,
        permission_program: 2,
        permission: 3,
        system_program: 4,
        buffer: 5,
        delegation_record: 6,
        delegation_metadata: 7,
        delegation_program: 8,
        validator_account: 9,
        seeds: balance_signer(&ata.owner, &ata.mint, args.bump()),
    };
    Ok(Action { call: Some(call), write: None })
}

/// Whether undelegate-permission succeeds. Accounts: the payer (the
/// record's owner), the balance record, the permission record, the
/// permission service, the delegation service, the delegation context.
pub open spec fn undelegate_permission_check(cfg: Programs, accounts: Seq<Account>) -> Result<(), ProgramError> {
    if accounts.len() < 6 {
        Err(ProgramError::NotEnoughAccountKeys)
    } else if !accounts[0].is_signer {
        Err(ProgramError::MissingRequiredSignature)
    } else if accounts[3].address@ != cfg.permission_program@ {
        Err(ProgramError::InvalidAccountData)
    } else if !holds_live_ata(cfg, accounts[1]) {
        Err(ProgramError::InvalidAccountData)
    } else if ata_owner(accounts[1].data@) != accounts[0].address@ {
        Err(ProgramError::InvalidAccountData)
    } else if !is_permission_of(cfg, accounts[1].address@, accounts[2].address@) {
        Err(ProgramError::InvalidSeeds)
    } else {
        Ok(())
    }
}

/// What a successful undelegate-permission asks for: the commit and return
/// of the permission record.
pub open spec fn undelegate_permission_effect(a: Action) -> bool {
    &&& a.call matches Some(
        ServiceCall::CommitAndUndelegatePermission {
            payer,
            permissioned,
            permission,
            magic_program,
            magic_context,
        },
    ) && payer == 0 && permissioned == 1 && permission == 2 && magic_program == 4 && magic_context
        == 5
    &&& a.write is None
}

/// Asks the delegation service to commit the permission record and give it
/// back; only the balance record's owner may.
pub fn process_undelegate_ephemeral_ata_permission(
    cfg: &Programs,
    accounts: &[Account],
    instruction_data: &[u8],
) -> (r: Result<Action, ProgramError>)
    ensures
        outcome(r) == undelegate_permission_check(*cfg, accounts@),
        r matches Ok(a) ==> undelegate_permission_effect(a),
{
    if accounts.len() < 6 {
        return Err(ProgramError::NotEnoughAccountKeys);
    }
    let payer_info = &accounts[0];
    if !payer_info.is_signer {
        return Err(ProgramError::MissingRequiredSignature);
    }
    if !same_address(&accounts[3].address, &cfg.permission_program) {
        return Err(ProgramError::InvalidAccountData);
    }
    let ata = load_live_ata(cfg, &accounts[1])?;
    if !same_address(&ata.owner, &payer_info.address) {
        return Err(ProgramError::InvalidAccountData);
    }
    if !check_canonical(&cfg.permission_program, &permission_seeds(&accounts[1].address), &accounts[2].address) {
        return Err(ProgramError::InvalidSeeds);
    }
    let call = ServiceCall::CommitAndUndelegatePermission {
        payer: 0,
        permissioned: 1,
        permission: 2,
        magic_program: 4,
        magic_context: 5,
    };
    Ok(Action { call: Some(call), write: None })
}


/// A reset always leaves the owner's member with the authority flag, even
/// when the flags given clear it; the other flags are the ones given.
pub proof fn lemma_reset_keeps_authority(cfg: Programs, accounts: Seq<Account>, data: Seq<u8>, a: Action)
    requires
        reset_permission_check(cfg, accounts, data) == Ok::<(), ProgramError>(()),
        reset_permission_effect(accounts, data, a),
    ensures
        a.call matches Some(ServiceCall::UpdatePermission { member, .. }) && member.pubkey@
            == ata_owner(accounts[0].data@) && has_flag(member.flags.bits, AUTHORITY) && (forall|
            f: u8,
        | f & AUTHORITY == 0 ==> has_flag(member.flags.bits, f) == has_flag(data[1], f)),
{
    let bits = data[1];
    assert forall|f: u8| f & AUTHORITY == 0 implies has_flag(bits | AUTHORITY, f) == has_flag(
        bits,
        f,
    ) by {
        assert(AUTHORITY & f == 0) by (bit_vector)
            requires
                f & AUTHORITY == 0,
        ;
        lemma_set_flag(bits, AUTHORITY, f);
    }
    assert(AUTHORITY & 0u8 == 0) by (bit_vector);
    lemma_set_flag(bits, AUTHORITY, 0);
}

} // verus!
