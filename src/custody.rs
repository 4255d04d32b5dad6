//! Creating balance and vault records, and moving tokens between a user and
//! the pooled vault.
use vstd::prelude::*;

use crate::account::{Account, Programs};
use crate::action::{outcome, seeds_are, writes, Action, DerivedSeeds, RecordWrite, ServiceCall};
use crate::address::same_address;
use crate::error::{already_in_use, EphemeralSplError, ProgramError};
use crate::instruction::{DepositArgs, InitializeEphemeralAta, InitializeGlobalVault, WithdrawArgs};
use crate::state::{
    ata_amount, ata_bytes, ata_mint, ata_owner, lemma_ata_bytes_fields, le_u64, vault_mint, EphemeralAta, GlobalVault,
    EPHEMERAL_ATA_LEN, GLOBAL_VAULT_LEN,
};
use crate::validate::{
    ata_initialized, balance_seeds, check_derived, derives, holds_ata, holds_vault, is_mint,
    load_ata, load_vault, mint_decimals, vault_initialized, vault_seeds, MINT_DECIMALS_OFFSET,
};

verus! {

/// Whether initialize-balance-record succeeds. Accounts: the record, the
/// payer, the owner, the mint. Payload: the record's bump.
pub open spec fn initialize_ata_check(cfg: Programs, accounts: Seq<Account>, data: Seq<u8>) -> Result<
    (),
    ProgramError,
> {
    if data.len() < 1 {
        Err(ProgramError::InvalidInstructionData)
    } else if accounts.len() < 4 {
        Err(ProgramError::NotEnoughAccountKeys)
    } else if !derives(
        cfg.program_id@,
        seq![accounts[2].address@, accounts[3].address@],
        data[0],
        accounts[0].address@,
    ) {
        Err(ProgramError::InvalidSeeds)
    } else if accounts[0].owner@ == cfg.program_id@ {
        Ok(())
    } else if accounts[0].owner@ == cfg.delegation_program@ {
        Err(already_in_use())
    } else if !accounts[1].is_signer {
        Err(ProgramError::MissingRequiredSignature)
    } else {
        Ok(())
    }
}

/// What a successful initialize-balance-record asks for: nothing where this
/// program already owns the record; otherwise the record's creation, then
/// the record with the owner, the mint and a zero amount.
pub open spec fn initialize_ata_effect(cfg: Programs, accounts: Seq<Account>, data: Seq<u8>, a: Action) -> bool {
    if accounts[0].owner@ == cfg.program_id@ {
        a.call is None && a.write is None
    } else {
        &&& a.call matches Some(
            ServiceCall::CreateAccount { payer, account, space, owner, seeds },
        ) && payer == 1 && account == 0 && space == EPHEMERAL_ATA_LEN && owner@ == cfg.program_id@
            && seeds_are(seeds, seq![accounts[2].address@, accounts[3].address@], data[0])
        &&& writes(a, 0, ata_bytes(accounts[2].address@, accounts[3].address@, 0))
    }
}

/// Creates the balance record of an owner and a mint, or does nothing where
/// it exists. A record held by the delegation service is in use.
pub fn process_initialize_ephemeral_ata(
    cfg: &Programs,
    accounts: &[Account],
    instruction_data: &[u8],
) -> (r: Result<Action, ProgramError>)
    ensures
        outcome(r) == initialize_ata_check(*cfg, accounts@, instruction_data@),
        r matches Ok(a) ==> initialize_ata_effect(*cfg, accounts@, instruction_data@, a),
{
    let args = InitializeEphemeralAta::try_from_bytes(instruction_data)?;
    if accounts.len() < 4 {
        return Err(ProgramError::NotEnoughAccountKeys);
    }
    let ata_info = &accounts[0];
    let payer_info = &accounts[1];
    let user_info = &accounts[2];
    let mint_info = &accounts[3];
    if !check_derived(
        &cfg.program_id,
        balance_seeds(&user_info.address, &mint_info.address),
        args.bump(),
        &ata_info.address,
    ) {
        return Err(ProgramError::InvalidSeeds);
    }
    // Idempotent: the record exists already.
    if same_address(&ata_info.owner, &cfg.program_id) {
        return Ok(Action::nothing());
    }
    // A delegated record may not be initialized again.
    if same_address(&ata_info.owner, &cfg.delegation_program) {
        return Err(ProgramError::from(EphemeralSplError::AlreadyInUse));
    }
    if !payer_info.is_signer {
        return Err(ProgramError::MissingRequiredSignature);
    }
    let record = EphemeralAta { owner: user_info.address, mint: mint_info.address, amount: 0 };
    let call = ServiceCall::CreateAccount {
        payer: 1,
        account: 0,
        space: EPHEMERAL_ATA_LEN as u64,
        owner: cfg.program_id,
        seeds: DerivedSeeds {
            seeds: balance_seeds(&user_info.address, &mint_info.address),
            bump: args.bump(),
        },
    };
    Ok(Action { call: Some(call), write: Some(RecordWrite { account: 0, data: record.to_bytes() }) })
}

/// Whether initialize-vault-record succeeds. Accounts: the vault, the payer,
/// the mint. Payload: the vault's bump.
pub open spec fn initialize_vault_check(cfg: Programs, accounts: Seq<Account>, data: Seq<u8>) -> Result<
    (),
    ProgramError,
> {
    if data.len() < 1 {
        Err(ProgramError::InvalidInstructionData)
    } else if accounts.len() < 3 {
        Err(ProgramError::NotEnoughAccountKeys)
    } else if !derives(cfg.program_id@, seq![accounts[2].address@], data[0], accounts[0].address@) {
        Err(ProgramError::InvalidSeeds)
    } else if holds_vault(cfg, accounts[0]) && vault_initialized(accounts[0].data@) {
        Err(already_in_use())
    } else if !accounts[1].is_signer {
        Err(ProgramError::MissingRequiredSignature)
    } else {
        Ok(())
    }
}

/// What a successful initialize-vault-record asks for: the vault's
/// creation, then the vault with its mint.
pub open spec fn initialize_vault_effect(cfg: Programs, accounts: Seq<Account>, data: Seq<u8>, a: Action) -> bool {
    &&& a.call matches Some(ServiceCall::CreateAccount { payer, account, space, owner, seeds })
        && payer == 1 && account == 0 && space == GLOBAL_VAULT_LEN && owner@ == cfg.program_id@
        && seeds_are(seeds, seq![accounts[2].address@], data[0])
    &&& writes(a, 0, accounts[2].address@)
}

/// Creates the vault record of a mint; a vault that already shows a mint is
/// in use.
pub fn process_initialize_global_vault(
    cfg: &Programs,
    accounts: &[Account],
    instruction_data: &[u8],
) -> (r: Result<Action, ProgramError>)
    ensures
        outcome(r) == initialize_vault_check(*cfg, accounts@, instruction_data@),
        r matches Ok(a) ==> initialize_vault_effect(*cfg, accounts@, instruction_data@, a),
{
    let args = InitializeGlobalVault::try_from_bytes(instruction_data)?;
    if accounts.len() < 3 {
        return Err(ProgramError::NotEnoughAccountKeys);
    }
    let vault_info = &accounts[0];
    let payer_info = &accounts[1];
    let mint_info = &accounts[2];
    if !check_derived(&cfg.program_id, vault_seeds(&mint_info.address), args.bump(), &vault_info.address) {
        return Err(ProgramError::InvalidSeeds);
    }
    // Double-initialization guard.
    if let Ok(vault) = load_vault(cfg, vault_info) {
        if vault.is_initialized() {
            return Err(ProgramError::from(EphemeralSplError::AlreadyInUse));
        }
    }
    if !payer_info.is_signer {
        return Err(ProgramError::MissingRequiredSignature);
    }
    let vault = GlobalVault { mint: mint_info.address };
    let call = ServiceCall::CreateAccount {
        payer: 1,
        account: 0,
        space: GLOBAL_VAULT_LEN as u64,
        owner: cfg.program_id,
        seeds: DerivedSeeds { seeds: vault_seeds(&mint_info.address), bump: args.bump() },
    };
    Ok(Action { call: Some(call), write: Some(RecordWrite { account: 0, data: vault.to_bytes() }) })
}

/// The checks that deposit and withdraw share on the balance record (0), the
/// vault (1) and the mint (2).
pub open spec fn custody_accounts_ok(cfg: Programs, accounts: Seq<Account>) -> bool {
    &&& holds_ata(cfg, accounts[0])
    &&& holds_vault(cfg, accounts[1])
    &&& ata_initialized(accounts[0].data@)
    &&& ata_mint(accounts[0].data@) == accounts[2].address@
    &&& vault_mint(accounts[1].data@) == accounts[2].address@
}

/// Whether deposit succeeds. Accounts: the balance record, the vault, the
/// mint, the user's source token account, the vault's token account, the
/// user's signing authority. Payload: the amount.
pub open spec fn deposit_check(cfg: Programs, accounts: Seq<Account>, data: Seq<u8>) -> Result<(), ProgramError> {
    if data.len() < 8 {
        Err(ProgramError::InvalidInstructionData)
    } else if accounts.len() < 6 {
        Err(ProgramError::NotEnoughAccountKeys)
    } else if !custody_accounts_ok(cfg, accounts) {
        Err(ProgramError::InvalidAccountData)
    } else if !accounts[5].is_signer {
        Err(ProgramError::MissingRequiredSignature)
    } else if !is_mint(cfg, accounts[2]) {
        Err(ProgramError::InvalidAccountData)
    } else if ata_amount(accounts[0].data@) + le_u64(data.subrange(0, 8)) > u64::MAX {
        Err(ProgramError::InvalidArgument)
    } else {
        Ok(())
    }
}

/// What a successful deposit asks for: the transfer of the amount from the
/// user's token account to the vault's, then the record with its amount
/// raised by exactly that much.
pub open spec fn deposit_effect(cfg: Programs, accounts: Seq<Account>, data: Seq<u8>, a: Action) -> bool {
    let rec = accounts[0].data@;
    let amount = le_u64(data.subrange(0, 8));
    &&& a.call matches Some(
        ServiceCall::TransferChecked { mint, from, to, authority, amount: x, decimals, signer },
    ) && mint == 2 && from == 3 && to == 4 && authority == 5 && x == amount && decimals
        == accounts[2].data@[MINT_DECIMALS_OFFSET as int] && signer is None
    &&& writes(a, 0, ata_bytes(ata_owner(rec), ata_mint(rec), (ata_amount(rec) + amount) as u64))
}

/// Moves tokens from the user into the vault and credits the balance record.
pub fn process_deposit_spl_tokens(
    cfg: &Programs,
    accounts: &[Account],
    instruction_data: &[u8],
) -> (r: Result<Action, ProgramError>)
    ensures
        outcome(r) == deposit_check(*cfg, accounts@, instruction_data@),
        r matches Ok(a) ==> deposit_effect(*cfg, accounts@, instruction_data@, a),
{
    let args = DepositArgs::try_from_bytes(instruction_data)?;
    if accounts.len() < 6 {
        return Err(ProgramError::NotEnoughAccountKeys);
    }
    let ata = load_ata(cfg, &accounts[0])?;
    let vault = load_vault(cfg, &accounts[1])?;
    let mint_info = &accounts[2];
    if !ata.is_initialized() || !same_address(&ata.mint, &mint_info.address) || !same_address(
        &vault.mint,
        &mint_info.address,
    ) {
        return Err(ProgramError::InvalidAccountData);
    }
    if !accounts[5].is_signer {
        return Err(ProgramError::MissingRequiredSignature);
    }
    let decimals = mint_decimals(cfg, mint_info)?;
    let amount = args.amount();
    let new_amount = match ata.amount.checked_add(amount) {
        Some(v) => v,
        None => {
            return Err(ProgramError::InvalidArgument);
        },
    };
    let updated = EphemeralAta { owner: ata.owner, mint: ata.mint, amount: new_amount };
    let call = ServiceCall::TransferChecked {
        mint: 2,
        from: 3,
        to: 4,
        authority: 5,
        amount,
        decimals,
        signer: None,
    };
    Ok(Action { call: Some(call), write: Some(RecordWrite { account: 0, data: updated.to_bytes() }) })
}

/// Whether withdraw succeeds. Accounts: the balance record, the vault, the
/// mint, the vault's token account, the user's destination token account.
/// Payload: the amount, then the vault's bump.
pub open spec fn withdraw_check(cfg: Programs, accounts: Seq<Account>, data: Seq<u8>) -> Result<(), ProgramError> {
    if data.len() < 9 {
        Err(ProgramError::InvalidInstructionData)
    } else if accounts.len() < 5 {
        Err(ProgramError::NotEnoughAccountKeys)
    } else if !custody_accounts_ok(cfg, accounts) {
        Err(ProgramError::InvalidAccountData)
    } else if !derives(cfg.program_id@, seq![accounts[2].address@], data[8], accounts[1].address@) {
        Err(ProgramError::InvalidSeeds)
    } else if !is_mint(cfg, accounts[2]) {
        Err(ProgramError::InvalidAccountData)
    } else if le_u64(data.subrange(0, 8)) > ata_amount(accounts[0].data@) {
        Err(ProgramError::InvalidArgument)
    } else {
        Ok(())
    }
}

/// What a successful withdraw asks for: the transfer of the amount from the
/// vault's token account to the user's, signed by the vault, then the record
/// with its amount lowered by exactly that much.
pub open spec fn withdraw_effect(cfg: Programs, accounts: Seq<Account>, data: Seq<u8>, a: Action) -> bool {
    let rec = accounts[0].data@;
    let amount = le_u64(data.subrange(0, 8));
    &&& a.call matches Some(
        ServiceCall::TransferChecked { mint, from, to, authority, amount: x, decimals, signer },
    ) && mint == 2 && from == 3 && to == 4 && authority == 1 && x == amount && decimals
        == accounts[2].data@[MINT_DECIMALS_OFFSET as int] && (signer matches Some(s) && seeds_are(
        s,
        seq![accounts[2].address@],
        data[8],
    ))
    &&& writes(a, 0, ata_bytes(ata_owner(rec), ata_mint(rec), (ata_amount(rec) - amount) as u64))
}

/// Moves tokens from the vault back to the user and debits the balance
/// record; the vault signs for the transfer.
pub fn process_withdraw_spl_tokens(
    cfg: &Programs,
    accounts: &[Account],
    instruction_data: &[u8],
) -> (r: Result<Action, ProgramError>)
    ensures
        outcome(r) == withdraw_check(*cfg, accounts@, instruction_data@),
        r matches Ok(a) ==> withdraw_effect(*cfg, accounts@, instruction_data@, a),
{
    let args = WithdrawArgs::try_from_bytes(instruction_data)?;
    if accounts.len() < 5 {
        return Err(ProgramError::NotEnoughAccountKeys);
    }
    let ata = load_ata(cfg, &accounts[0])?;
    let vault = load_vault(cfg, &accounts[1])?;
    let vault_info = &accounts[1];
    let mint_info = &accounts[2];
    if !ata.is_initialized() || !same_address(&ata.mint, &mint_info.address) || !same_address(
        &vault.mint,
        &mint_info.address,
    ) {
        return Err(ProgramError::InvalidAccountData);
    }
    if !check_derived(&cfg.program_id, vault_seeds(&mint_info.address), args.bump(), &vault_info.address) {
        return Err(ProgramError::InvalidSeeds);
    }
    let decimals = mint_decimals(cfg, mint_info)?;
    let amount = args.amount();
    let new_amount = match ata.amount.checked_sub(amount) {
        Some(v) => v,
        None => {
            return Err(ProgramError::InvalidArgument);
        },
    };
    let updated = EphemeralAta { owner: ata.owner, mint: ata.mint, amount: new_amount };
    let call = ServiceCall::TransferChecked {
        mint: 2,
        from: 3,
        to: 4,
        authority: 1,
        amount,
        decimals,
        signer: Some(DerivedSeeds { seeds: vault_seeds(&mint_info.address), bump: args.bump() }),
    };
    Ok(Action { call: Some(call), write: Some(RecordWrite { account: 0, data: updated.to_bytes() }) })
}


/// The first account as the host leaves it once it has carried out `a`:
/// the creation assigns it to the requested owner, the write replaces its
/// bytes.
pub open spec fn carried_out(before: Account, a: Action, after: Account) -> bool {
    &&& after.address == before.address
    &&& match a.call {
        Some(ServiceCall::CreateAccount { owner, .. }) => after.owner == owner,
        _ => after.owner == before.owner,
    }
    &&& match a.write {
        Some(w) => after.data@ == w.data@,
        None => after.data@ == before.data@,
    }
}

/// Initializing a balance record twice with the same inputs: the second
/// call succeeds and asks for nothing, so owner, mint and amount stay as the
/// first call left them; where the first call created the record, they are
/// the owner, the mint and zero.
pub proof fn lemma_initialize_ata_idempotent(
    cfg: Programs,
    first: Seq<Account>,
    data: Seq<u8>,
    a: Action,
    second: Seq<Account>,
)
    requires
        initialize_ata_check(cfg, first, data) == Ok::<(), ProgramError>(()),
        initialize_ata_effect(cfg, first, data, a),
        second.len() == first.len(),
        carried_out(first[0], a, second[0]),
        forall|i: int| 1 <= i < first.len() ==> second[i] == first[i],
    ensures
        initialize_ata_check(cfg, second, data) == Ok::<(), ProgramError>(()),
        forall|b: Action| initialize_ata_effect(cfg, second, data, b) ==> b.call is None && b.write is None,
        first[0].owner@ != cfg.program_id@ ==> ata_owner(second[0].data@) == first[2].address@
            && ata_mint(second[0].data@) == first[3].address@ && ata_amount(second[0].data@) == 0,
{
    assert(second[2] == first[2] && second[3] == first[3]);
    if first[0].owner@ != cfg.program_id@ {
        lemma_ata_bytes_fields(first[2].address@, first[3].address@, 0);
    }
}

/// Token balances of the instruction's accounts, by position, after the
/// token-transfer service has carried out `call`: a transfer moves its
/// amount from its source to its destination.
pub open spec fn token_balances_after(balances: Map<int, nat>, call: ServiceCall) -> Map<int, nat> {
    match call {
        ServiceCall::TransferChecked { from, to, amount, .. } => {
            let debited = balances.insert(from as int, (balances[from as int] - amount) as nat);
            debited.insert(to as int, (debited[to as int] + amount) as nat)
        },
        _ => balances,
    }
}

/// A deposit of A raises the record's amount by exactly A, lowers the
/// user's token balance by exactly A and raises the vault's by exactly A.
pub proof fn lemma_deposit_conserves(
    cfg: Programs,
    accounts: Seq<Account>,
    data: Seq<u8>,
    a: Action,
    balances: Map<int, nat>,
)
    requires
        deposit_check(cfg, accounts, data) == Ok::<(), ProgramError>(()),
        deposit_effect(cfg, accounts, data, a),
        balances[3] >= le_u64(data.subrange(0, 8)),
    ensures
        a.call matches Some(call) && ({
            let after = token_balances_after(balances, call);
            let amount = le_u64(data.subrange(0, 8));
            &&& after[3] == balances[3] - amount
            &&& after[4] == balances[4] + amount
            &&& after[3] + after[4] == balances[3] + balances[4]
        }),
        a.write matches Some(w) && ata_amount(w.data@) == ata_amount(accounts[0].data@) + le_u64(
            data.subrange(0, 8),
        ) && ata_owner(w.data@) == ata_owner(accounts[0].data@) && ata_mint(w.data@) == ata_mint(
            accounts[0].data@,
        ),
{
    let rec = accounts[0].data@;
    lemma_ata_bytes_fields(
        ata_owner(rec),
        ata_mint(rec),
        (ata_amount(rec) + le_u64(data.subrange(0, 8))) as u64,
    );
}

/// A withdraw of A no greater than the record's amount lowers it by exactly
/// A, and moves exactly A from the vault's token account to the user's.
pub proof fn lemma_withdraw_conserves(
    cfg: Programs,
    accounts: Seq<Account>,
    data: Seq<u8>,
    a: Action,
    balances: Map<int, nat>,
)
    requires
        withdraw_check(cfg, accounts, data) == Ok::<(), ProgramError>(()),
        withdraw_effect(cfg, accounts, data, a),
        balances[3] >= le_u64(data.subrange(0, 8)),
    ensures
        a.call matches Some(call) && ({
            let after = token_balances_after(balances, call);
            let amount = le_u64(data.subrange(0, 8));
            &&& after[3] == balances[3] - amount
            &&& after[4] == balances[4] + amount
            &&& after[3] + after[4] == balances[3] + balances[4]
        }),
        a.write matches Some(w) && ata_amount(w.data@) == ata_amount(accounts[0].data@) - le_u64(
            data.subrange(0, 8),
        ) && ata_owner(w.data@) == ata_owner(accounts[0].data@) && ata_mint(w.data@) == ata_mint(
            accounts[0].data@,
        ),
{
    let rec = accounts[0].data@;
    lemma_ata_bytes_fields(
        ata_owner(rec),
        ata_mint(rec),
        (ata_amount(rec) - le_u64(data.subrange(0, 8))) as u64,
    );
}

/// A withdraw of more than the record holds fails, so that neither the
/// record nor any token balance changes.
pub proof fn lemma_withdraw_over_balance_fails(cfg: Programs, accounts: Seq<Account>, data: Seq<u8>)
    requires
        data.len() >= 9,
        accounts.len() >= 5,
        holds_ata(cfg, accounts[0]),
        le_u64(data.subrange(0, 8)) > ata_amount(accounts[0].data@),
    ensures
        withdraw_check(cfg, accounts, data) is Err,
{
}

} // verus!
