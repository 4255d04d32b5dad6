use e_token::account::{Account, Programs};
use e_token::action::ServiceCall;
use e_token::dispatch::process_instruction;
use e_token::error::ProgramError;
use e_token::flags::{AUTHORITY, TX_LOGS, TX_MESSAGE};
use e_token::state::EphemeralAta;
use pinocchio::Address;

const PROGRAM: [u8; 32] = [7u8; 32];
const DELEGATION: [u8; 32] = [8u8; 32];
const PERMISSION_PROGRAM: [u8; 32] = [9u8; 32];
const TOKEN: [u8; 32] = [10u8; 32];
const SYSTEM: [u8; 32] = [0u8; 32];
const USER: [u8; 32] = [21u8; 32];
const MINT: [u8; 32] = [22u8; 32];

fn programs() -> Programs {
    Programs {
        program_id: PROGRAM,
        delegation_program: DELEGATION,
        permission_program: PERMISSION_PROGRAM,
        token_program: TOKEN,
    }
}

fn find(seeds: &[&[u8]], program: [u8; 32]) -> ([u8; 32], u8) {
    let (a, b) = Address::find_program_address(seeds, &Address::new_from_array(program));
    (a.to_bytes(), b)
}

fn account(address: [u8; 32], owner: [u8; 32], lamports: u64, data: Vec<u8>) -> Account {
    Account { address, owner, lamports, is_signer: false, data }
}

fn signer(address: [u8; 32]) -> Account {
    Account { address, owner: SYSTEM, lamports: 1_000_000_000, is_signer: true, data: vec![] }
}

fn record() -> (Account, u8) {
    let (addr, bump) = find(&[&USER, &MINT], PROGRAM);
    let data = EphemeralAta { owner: USER, mint: MINT, amount: 3 }.to_bytes();
    (account(addr, PROGRAM, 1_000, data), bump)
}

fn permission(record: &Account, lamports: u64) -> Account {
    let (addr, _) = find(&[b"permission:", &record.address], PERMISSION_PROGRAM);
    account(addr, PERMISSION_PROGRAM, lamports, vec![])
}

#[test]
fn create_ephemeral_ata_permission() {
    let (rec, bump) = record();
    let perm = permission(&rec, 0);
    let accounts = vec![
        rec,
        perm,
        signer(USER),
        account(SYSTEM, SYSTEM, 1, vec![]),
        account(PERMISSION_PROGRAM, SYSTEM, 1, vec![]),
    ];
    let action = process_instruction(&programs(), &accounts, &[6, bump, 1, 1, 0, 0, 0]).ok().unwrap();
    match &action.call {
        Some(ServiceCall::CreatePermission { permissioned, permission, payer, system_program, member, seeds }) => {
            assert_eq!((*permissioned, *permission, *payer, *system_program), (0, 1, 2, 3));
            assert_eq!(member.pubkey, USER);
            assert_eq!(member.flags.bits, AUTHORITY | TX_LOGS);
            assert_eq!(seeds.seeds, vec![USER.to_vec(), MINT.to_vec()]);
            assert_eq!(seeds.bump, bump);
        }
        _ => panic!("expected a permission creation"),
    }
    assert!(action.write.is_none());
}

#[test]
fn create_ephemeral_ata_permission_existing_is_idempotent() {
    let (rec, bump) = record();
    let perm = permission(&rec, 500);
    let accounts = vec![
        rec,
        perm,
        signer(USER),
        account(SYSTEM, SYSTEM, 1, vec![]),
        account(PERMISSION_PROGRAM, SYSTEM, 1, vec![]),
    ];
    let action = process_instruction(&programs(), &accounts, &[6, bump, 0, 0, 0, 0, 0]).ok().unwrap();
    assert!(action.call.is_none() && action.write.is_none());
}

#[test]
fn create_ephemeral_ata_permission_checks() {
    let (rec, bump) = record();
    let perm = permission(&rec, 0);
    let mut accounts = vec![
        rec,
        account([77u8; 32], PERMISSION_PROGRAM, 0, vec![]),
        signer(USER),
        account(SYSTEM, SYSTEM, 1, vec![]),
        account(PERMISSION_PROGRAM, SYSTEM, 1, vec![]),
    ];
    let data = [6, bump, 0, 0, 0, 0, 0];
    assert_eq!(process_instruction(&programs(), &accounts, &data).err(), Some(ProgramError::InvalidSeeds));
    accounts[1] = perm;
    assert_eq!(
        process_instruction(&programs(), &accounts, &[6, bump.wrapping_add(1), 0, 0, 0, 0, 0]).err(),
        Some(ProgramError::InvalidSeeds)
    );
    accounts[4] = account([78u8; 32], SYSTEM, 1, vec![]);
    assert_eq!(process_instruction(&programs(), &accounts, &data).err(), Some(ProgramError::InvalidAccountData));
    accounts[4] = account(PERMISSION_PROGRAM, SYSTEM, 1, vec![]);
    accounts[2] = signer([79u8; 32]);
    assert_eq!(process_instruction(&programs(), &accounts, &data).err(), Some(ProgramError::InvalidAccountData));
    accounts[2].is_signer = false;
    assert_eq!(process_instruction(&programs(), &accounts, &data).err(), Some(ProgramError::MissingRequiredSignature));
    assert_eq!(
        process_instruction(&programs(), &accounts, &[6, bump, 0, 0, 0, 0]).err(),
        Some(ProgramError::InvalidInstructionData)
    );
}

#[test]
fn update_ephemeral_ata_permission() {
    let (rec, bump) = record();
    let perm = permission(&rec, 500);
    let mut accounts = vec![signer(USER), rec, perm, account(PERMISSION_PROGRAM, SYSTEM, 1, vec![])];
    let action = process_instruction(&programs(), &accounts, &[11, bump, TX_MESSAGE]).ok().unwrap();
    match &action.call {
        Some(ServiceCall::UpdatePermission { authority, permissioned, permission, member, .. }) => {
            assert_eq!((*authority, *permissioned, *permission), (0, 1, 2));
            assert_eq!(member.pubkey, USER);
            assert_eq!(member.flags.bits, TX_MESSAGE);
        }
        _ => panic!("expected a permission update"),
    }
    accounts[0] = signer([80u8; 32]);
    assert_eq!(
        process_instruction(&programs(), &accounts, &[11, bump, 0]).err(),
        Some(ProgramError::IncorrectAuthority)
    );
}

#[test]
fn reset_ephemeral_ata_permission_keeps_authority() {
    let (rec, bump) = record();
    let perm = permission(&rec, 500);
    let accounts = vec![rec, perm, signer(USER), account(PERMISSION_PROGRAM, SYSTEM, 1, vec![])];
    let action = process_instruction(&programs(), &accounts, &[9, bump, TX_LOGS]).ok().unwrap();
    match &action.call {
        Some(ServiceCall::UpdatePermission { authority, permissioned, permission, member, .. }) => {
            assert_eq!((*authority, *permissioned, *permission), (2, 0, 1));
            assert_eq!(member.pubkey, USER);
            assert!(member.flags.has(AUTHORITY));
            assert_eq!(member.flags.bits, AUTHORITY | TX_LOGS);
        }
        _ => panic!("expected a permission update"),
    }
    let action = process_instruction(&programs(), &accounts, &[9, bump, 0]).ok().unwrap();
    match &action.call {
        Some(ServiceCall::UpdatePermission { member, .. }) => assert_eq!(member.flags.bits, AUTHORITY),
        _ => panic!("expected a permission update"),
    }
}

#[test]
fn reset_ephemeral_ata_permission_needs_existing_permission() {
    let (rec, bump) = record();
    let perm = permission(&rec, 0);
    let accounts = vec![rec, perm, signer(USER), account(PERMISSION_PROGRAM, SYSTEM, 1, vec![])];
    assert_eq!(
        process_instruction(&programs(), &accounts, &[9, bump, 0]).err(),
        Some(ProgramError::InvalidAccountData)
    );
}

#[test]
fn close_ephemeral_ata_permission() {
    let (rec, bump) = record();
    let perm = permission(&rec, 500);
    let mut accounts = vec![signer(USER), rec, perm, account(PERMISSION_PROGRAM, SYSTEM, 1, vec![])];
    let action = process_instruction(&programs(), &accounts, &[10, bump]).ok().unwrap();
    match &action.call {
        Some(ServiceCall::ClosePermission { payer, permissioned, permission, seeds }) => {
            assert_eq!((*payer, *permissioned, *permission), (0, 1, 2));
            assert_eq!(seeds.bump, bump);
        }
        _ => panic!("expected a permission close"),
    }
    accounts[0] = signer([80u8; 32]);
    assert_eq!(
        process_instruction(&programs(), &accounts, &[10, bump]).err(),
        Some(ProgramError::InvalidAccountData)
    );
}

#[test]
fn delegate_ephemeral_ata_permission_non_owner_succeeds() {
    let (rec, bump) = record();
    let perm = permission(&rec, 500);
    let mut accounts = vec![
        signer([81u8; 32]),
        rec,
        account(PERMISSION_PROGRAM, SYSTEM, 1, vec![]),
        perm,
        account(SYSTEM, SYSTEM, 1, vec![]),
    ];
    for i in 0..5u8 {
        accounts.push(account([90 + i; 32], SYSTEM, 1, vec![]));
    }
    let action = process_instruction(&programs(), &accounts, &[7, bump]).ok().unwrap();
    match &action.call {
        Some(ServiceCall::DelegatePermission { permission, validator_account, seeds, .. }) => {
            assert_eq!((*permission, *validator_account), (3, 9));
            assert_eq!(seeds.seeds, vec![USER.to_vec(), MINT.to_vec()]);
        }
        _ => panic!("expected a permission delegation"),
    }
    assert_eq!(
        process_instruction(&programs(), &accounts[..9], &[7, bump]).err(),
        Some(ProgramError::NotEnoughAccountKeys)
    );
}

#[test]
fn undelegate_ephemeral_ata_permission() {
    let (rec, _) = record();
    let perm = permission(&rec, 500);
    let accounts = vec![
        signer(USER),
        rec,
        perm,
        account(PERMISSION_PROGRAM, SYSTEM, 1, vec![]),
        account([60u8; 32], SYSTEM, 1, vec![]),
        account([61u8; 32], SYSTEM, 1, vec![]),
    ];
    let action = process_instruction(&programs(), &accounts, &[8]).ok().unwrap();
    match &action.call {
        Some(ServiceCall::CommitAndUndelegatePermission { payer, permissioned, permission, magic_program, magic_context }) => {
            assert_eq!((*payer, *permissioned, *permission, *magic_program, *magic_context), (0, 1, 2, 4, 5));
        }
        _ => panic!("expected a permission undelegation"),
    }
}
