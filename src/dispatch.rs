//! Opcode decoding and routing into the handlers.
use vstd::prelude::*;

use crate::account::{Account, Programs};
use crate::action::{outcome, Action};
use crate::custody::{
    deposit_check, deposit_effect, initialize_ata_check, initialize_ata_effect,
    initialize_vault_check, initialize_vault_effect, process_deposit_spl_tokens,
    process_initialize_ephemeral_ata, process_initialize_global_vault, process_withdraw_spl_tokens,
    withdraw_check, withdraw_effect,
};
use crate::delegation::{
    delegate_ata_check, delegate_ata_effect, process_delegate_ephemeral_ata,
    process_undelegate_ephemeral_ata, process_undelegation_callback, undelegate_ata_check,
    undelegate_ata_effect, undelegation_callback_check, undelegation_callback_effect,
};
use crate::error::{invalid_instruction, EphemeralSplError, ProgramError};
use crate::state::{ata_mint, ata_owner};
use crate::validate::{derives, derives_canonically, is_permission_of};
use crate::permission::{
    close_permission_check, close_permission_effect, permission_addresses_ok, create_permission_check,
    create_permission_effect, delegate_permission_check, delegate_permission_effect,
    process_close_ephemeral_ata_permission, process_create_ephemeral_ata_permission,
    process_delegate_ephemeral_ata_permission, process_reset_ephemeral_ata_permission,
    process_undelegate_ephemeral_ata_permission, process_update_ephemeral_ata_permission,
    reset_permission_check, reset_permission_effect, undelegate_permission_check,
    undelegate_permission_effect, update_permission_check, update_permission_effect,
};

verus! {

/// Opcode of initialize-balance-record.
pub const INITIALIZE_EPHEMERAL_ATA: u8 = 0;
/// Opcode of initialize-vault-record.
pub const INITIALIZE_GLOBAL_VAULT: u8 = 1;
/// Opcode of deposit.
pub const DEPOSIT_SPL_TOKENS: u8 = 2;
/// Opcode of withdraw.
pub const WITHDRAW_SPL_TOKENS: u8 = 3;
/// Opcode of delegate-balance-record.
pub const DELEGATE_EPHEMERAL_ATA: u8 = 4;
/// Opcode of undelegate-balance-record.
pub const UNDELEGATE_EPHEMERAL_ATA: u8 = 5;
/// Opcode of create-permission.
pub const CREATE_EPHEMERAL_ATA_PERMISSION: u8 = 6;
/// Opcode of delegate-permission.
pub const DELEGATE_EPHEMERAL_ATA_PERMISSION: u8 = 7;
/// Opcode of undelegate-permission.
pub const UNDELEGATE_EPHEMERAL_ATA_PERMISSION: u8 = 8;
/// Opcode of reset-permission.
pub const RESET_EPHEMERAL_ATA_PERMISSION: u8 = 9;
/// Opcode of close-permission.
pub const CLOSE_EPHEMERAL_ATA_PERMISSION: u8 = 10;
/// Opcode of update-permission.
pub const UPDATE_EPHEMERAL_ATA_PERMISSION: u8 = 11;
/// Opcode of the delegation service's undelegation callback: the first
/// byte of its eight-byte discriminator.
pub const UNDELEGATION_CALLBACK: u8 = 196;

/// Whether an instruction succeeds: its first byte picks the handler, which
/// gets the bytes after it.
pub open spec fn instruction_check(cfg: Programs, accounts: Seq<Account>, data: Seq<u8>) -> Result<
    (),
    ProgramError,
> {
    if data.len() == 0 {
        Err(invalid_instruction())
    } else {
        let rest = data.subrange(1, data.len() as int);
        let op = data[0];
        if op == INITIALIZE_EPHEMERAL_ATA {
            initialize_ata_check(cfg, accounts, rest)
        } else if op == INITIALIZE_GLOBAL_VAULT {
            initialize_vault_check(cfg, accounts, rest)
        } else if op == DEPOSIT_SPL_TOKENS {
            deposit_check(cfg, accounts, rest)
        } else if op == WITHDRAW_SPL_TOKENS {
            withdraw_check(cfg, accounts, rest)
        } else if op == DELEGATE_EPHEMERAL_ATA {
            delegate_ata_check(cfg, accounts, rest)
        } else if op == UNDELEGATE_EPHEMERAL_ATA {
            undelegate_ata_check(cfg, accounts)
        } else if op == CREATE_EPHEMERAL_ATA_PERMISSION {
            create_permission_check(cfg, accounts, rest)
        } else if op == DELEGATE_EPHEMERAL_ATA_PERMISSION {
            delegate_permission_check(cfg, accounts, rest)
        } else if op == UNDELEGATE_EPHEMERAL_ATA_PERMISSION {
            undelegate_permission_check(cfg, accounts)
        } else if op == RESET_EPHEMERAL_ATA_PERMISSION {
            reset_permission_check(cfg, accounts, rest)
        } else if op == CLOSE_EPHEMERAL_ATA_PERMISSION {
            close_permission_check(cfg, accounts, rest)
        } else if op == UPDATE_EPHEMERAL_ATA_PERMISSION {
            update_permission_check(cfg, accounts, rest)
        } else if op == UNDELEGATION_CALLBACK {
            undelegation_callback_check(accounts, rest)
        } else {
            Err(invalid_instruction())
        }
    }
}

/// What a successful instruction asks for: what its handler asks for.
pub open spec fn instruction_effect(cfg: Programs, accounts: Seq<Account>, data: Seq<u8>, a: Action) -> bool {
    let rest = data.subrange(1, data.len() as int);
    let op = data[0];
    if op == INITIALIZE_EPHEMERAL_ATA {
        initialize_ata_effect(cfg, accounts, rest, a)
    } else if op == INITIALIZE_GLOBAL_VAULT {
        initialize_vault_effect(cfg, accounts, rest, a)
    } else if op == DEPOSIT_SPL_TOKENS {
        deposit_effect(cfg, accounts, rest, a)
    } else if op == WITHDRAW_SPL_TOKENS {
        withdraw_effect(cfg, accounts, rest, a)
    } else if op == DELEGATE_EPHEMERAL_ATA {
        delegate_ata_effect(cfg, accounts, rest, a)
    } else if op == UNDELEGATE_EPHEMERAL_ATA {
        undelegate_ata_effect(a)
    } else if op == CREATE_EPHEMERAL_ATA_PERMISSION {
        create_permission_effect(accounts, rest, a)
    } else if op == DELEGATE_EPHEMERAL_ATA_PERMISSION {
        delegate_permission_effect(accounts, rest, a)
    } else if op == UNDELEGATE_EPHEMERAL_ATA_PERMISSION {
        undelegate_permission_effect(a)
    } else if op == RESET_EPHEMERAL_ATA_PERMISSION {
        reset_permission_effect(accounts, rest, a)
    } else if op == CLOSE_EPHEMERAL_ATA_PERMISSION {
        close_permission_effect(accounts, rest, a)
    } else if op == UPDATE_EPHEMERAL_ATA_PERMISSION {
        update_permission_effect(accounts, rest, a)
    } else {
        undelegation_callback_effect(rest, a)
    }
}

/// Decodes the opcode and runs its handler on the accounts and the rest of
/// the payload.
pub fn process_instruction(cfg: &Programs, accounts: &[Account], instruction_data: &[u8]) -> (r:
    Result<Action, ProgramError>)
    ensures
        outcome(r) == instruction_check(*cfg, accounts@, instruction_data@),
        r matches Ok(a) ==> instruction_effect(*cfg, accounts@, instruction_data@, a),
{
    if instruction_data.len() == 0 {
        return Err(ProgramError::from(EphemeralSplError::InvalidInstruction));
    }
    let (head, rest) = instruction_data.split_at(1);
    let op = head[0];
    if op == INITIALIZE_EPHEMERAL_ATA {
        process_initialize_ephemeral_ata(cfg, accounts, rest)
    } else if op == INITIALIZE_GLOBAL_VAULT {
        process_initialize_global_vault(cfg, accounts, rest)
    } else if op == DEPOSIT_SPL_TOKENS {
        process_deposit_spl_tokens(cfg, accounts, rest)
    } else if op == WITHDRAW_SPL_TOKENS {
        process_withdraw_spl_tokens(cfg, accounts, rest)
    } else if op == DELEGATE_EPHEMERAL_ATA {
        process_delegate_ephemeral_ata(cfg, accounts, rest)
    } else if op == UNDELEGATE_EPHEMERAL_ATA {
        process_undelegate_ephemeral_ata(cfg, accounts, rest)
    } else if op == CREATE_EPHEMERAL_ATA_PERMISSION {
        process_create_ephemeral_ata_permission(cfg, accounts, rest)
    } else if op == DELEGATE_EPHEMERAL_ATA_PERMISSION {
        process_delegate_ephemeral_ata_permission(cfg, accounts, rest)
    } else if op == UNDELEGATE_EPHEMERAL_ATA_PERMISSION {
        process_undelegate_ephemeral_ata_permission(cfg, accounts, rest)
    } else if op == RESET_EPHEMERAL_ATA_PERMISSION {
        process_reset_ephemeral_ata_permission(cfg, accounts, rest)
    } else if op == CLOSE_EPHEMERAL_ATA_PERMISSION {
        process_close_ephemeral_ata_permission(cfg, accounts, rest)
    } else if op == UPDATE_EPHEMERAL_ATA_PERMISSION {
        process_update_ephemeral_ata_permission(cfg, accounts, rest)
    } else if op == UNDELEGATION_CALLBACK {
        process_undelegation_callback(accounts, rest)
    } else {
        Err(ProgramError::from(EphemeralSplError::InvalidInstruction))
    }
}


/// A derived-address account that its documented seeds and the bump given
/// do not derive is refused by every handler that takes such a bump, so
/// nothing is asked of the host; where the payload and the account list
/// have their sizes, the two initializations refuse it with `InvalidSeeds`
/// before any other check.
pub proof fn lemma_wrong_derived_address_refused(cfg: Programs, accounts: Seq<Account>, data: Seq<u8>)
    ensures
        data.len() >= 1 && accounts.len() >= 4 && !derives(
            cfg.program_id@,
            seq![accounts[2].address@, accounts[3].address@],
            data[0],
            accounts[0].address@,
        ) ==> initialize_ata_check(cfg, accounts, data) == Err::<(), ProgramError>(
            ProgramError::InvalidSeeds,
        ),
        data.len() >= 1 && accounts.len() >= 3 && !derives(
            cfg.program_id@,
            seq![accounts[2].address@],
            data[0],
            accounts[0].address@,
        ) ==> initialize_vault_check(cfg, accounts, data) == Err::<(), ProgramError>(
            ProgramError::InvalidSeeds,
        ),
        data.len() >= 9 && accounts.len() >= 5 && !derives(
            cfg.program_id@,
            seq![accounts[2].address@],
            data[8],
            accounts[1].address@,
        ) ==> withdraw_check(cfg, accounts, data) is Err,
        data.len() >= 1 && accounts.len() >= 2 && !derives(
            cfg.program_id@,
            seq![ata_owner(accounts[1].data@), ata_mint(accounts[1].data@)],
            data[0],
            accounts[1].address@,
        ) ==> delegate_ata_check(cfg, accounts, data) is Err,
        data.len() >= 1 && accounts.len() >= 2 && !permission_addresses_ok(
            cfg,
            accounts[0],
            accounts[1],
            data[0],
        ) ==> create_permission_check(cfg, accounts, data) is Err && reset_permission_check(
            cfg,
            accounts,
            data,
        ) is Err,
        data.len() >= 1 && accounts.len() >= 3 && !permission_addresses_ok(
            cfg,
            accounts[1],
            accounts[2],
            data[0],
        ) ==> update_permission_check(cfg, accounts, data) is Err && close_permission_check(
            cfg,
            accounts,
            data,
        ) is Err,
        data.len() >= 1 && accounts.len() >= 4 && !permission_addresses_ok(
            cfg,
            accounts[1],
            accounts[3],
            data[0],
        ) ==> delegate_permission_check(cfg, accounts, data) is Err,
        accounts.len() >= 3 && !is_permission_of(cfg, accounts[1].address@, accounts[2].address@)
            ==> undelegate_permission_check(cfg, accounts) is Err,
        accounts.len() >= 3 && !derives_canonically(
            cfg.program_id@,
            seq![accounts[0].address@, ata_mint(accounts[2].data@)],
            accounts[2].address@,
        ) ==> undelegate_ata_check(cfg, accounts) is Err,
{
}

} // verus!
