use e_token::account::{Account, Programs};
use e_token::action::ServiceCall;
use e_token::address::address_bytes;
use e_token::delegation::bytes_from;
use e_token::dispatch::process_instruction;
use e_token::error::{EphemeralSplError, ProgramError};
use e_token::flags::{MemberFlags, ACCOUNT_SIGNATURES, AUTHORITY, TX_BALANCES, TX_LOGS, TX_MESSAGE};
use e_token::instruction::{
    CloseEphemeralAtaPermission, CreateEphemeralAtaPermission, DelegateArgs, DelegatePermissionArgs,
    DepositArgs, InitializeEphemeralAta, InitializeGlobalVault, ResetEphemeralAtaPermission,
    UpdateEphemeralAtaPermission, WithdrawArgs,
};
use e_token::state::{EphemeralAta, GlobalVault};
use e_token::validate::{balance_seeds, check_canonical, check_derived, mint_decimals};
use pinocchio::Address;

const PROGRAM: [u8; 32] = [7u8; 32];
const DELEGATION: [u8; 32] = [8u8; 32];
const TOKEN: [u8; 32] = [10u8; 32];
const SYSTEM: [u8; 32] = [0u8; 32];
const USER: [u8; 32] = [21u8; 32];
const MINT: [u8; 32] = [22u8; 32];

fn programs() -> Programs {
    Programs { program_id: PROGRAM, delegation_program: DELEGATION, permission_program: [9u8; 32], token_program: TOKEN }
}

fn account(address: [u8; 32], owner: [u8; 32], data: Vec<u8>) -> Account {
    Account { address, owner, lamports: 1, is_signer: false, data }
}

#[test]
fn empty_or_unknown_opcode_is_invalid_instruction() {
    assert_eq!(process_instruction(&programs(), &[], &[]).err(), Some(ProgramError::Custom(0)));
    assert_eq!(process_instruction(&programs(), &[], &[12]).err(), Some(ProgramError::Custom(0)));
    assert_eq!(process_instruction(&programs(), &[], &[255, 1, 2]).err(), Some(ProgramError::Custom(0)));
}

#[test]
fn error_codes() {
    assert_eq!(EphemeralSplError::InvalidInstruction.code(), 0);
    assert_eq!(EphemeralSplError::AlreadyInUse.code(), 1);
    assert_eq!(ProgramError::from(EphemeralSplError::AlreadyInUse), ProgramError::Custom(1));
    assert_eq!(EphemeralSplError::try_from(0u32), Ok(EphemeralSplError::InvalidInstruction));
    assert_eq!(EphemeralSplError::try_from(1u32), Ok(EphemeralSplError::AlreadyInUse));
    assert_eq!(EphemeralSplError::try_from(2u32), Err(ProgramError::InvalidArgument));
    assert_eq!(EphemeralSplError::InvalidInstruction.to_str(), "Error: Invalid instruction");
    assert_eq!(EphemeralSplError::AlreadyInUse.to_str(), "Error: Account already in use");
}

#[test]
fn payload_readers() {
    assert_eq!(InitializeEphemeralAta::try_from_bytes(&[5]).ok().unwrap().bump(), 5);
    assert!(InitializeEphemeralAta::try_from_bytes(&[]).is_err());
    assert_eq!(InitializeGlobalVault::try_from_bytes(&[6, 1]).ok().unwrap().bump(), 6);
    assert_eq!(DepositArgs::try_from_bytes(&[1, 2, 0, 0, 0, 0, 0, 0]).ok().unwrap().amount(), 513);
    assert_eq!(DepositArgs::try_from_bytes(&[1, 2, 0]).err(), Some(ProgramError::InvalidInstructionData));
    let w = WithdrawArgs::try_from_bytes(&[0, 0, 0, 0, 0, 0, 0, 1, 9]).ok().unwrap();
    assert_eq!((w.amount(), w.bump()), (1u64 << 56, 9));
    assert!(WithdrawArgs::try_from_bytes(&[0; 8]).is_err());
    assert_eq!(DelegatePermissionArgs::try_from_bytes(&[4]).ok().unwrap().bump(), 4);
    assert_eq!(CloseEphemeralAtaPermission::try_from_bytes(&[3]).ok().unwrap().bump(), 3);
    let c = CreateEphemeralAtaPermission::try_from_bytes(&[1, 2, 3, 4, 5, 6, 7]).ok().unwrap();
    assert_eq!((c.bump(), c.flags_bytes()), (1, [2, 3, 4, 5, 6]));
    assert!(CreateEphemeralAtaPermission::try_from_bytes(&[1, 2, 3, 4, 5]).is_err());
    let u = UpdateEphemeralAtaPermission::try_from_bytes(&[8, 9]).ok().unwrap();
    assert_eq!((u.bump(), u.flag_byte()), (8, 9));
    let r = ResetEphemeralAtaPermission::try_from_bytes(&[10, 11]).ok().unwrap();
    assert_eq!((r.bump(), r.flag_byte()), (10, 11));
    assert!(ResetEphemeralAtaPermission::try_from_bytes(&[10]).is_err());
}

#[test]
fn delegate_args() {
    let a = DelegateArgs::try_from_bytes(&[3]).ok().unwrap();
    assert_eq!((a.bump(), a.validator()), (3, None));
    let mut bytes = vec![4u8];
    bytes.extend_from_slice(&[33u8; 32]);
    bytes.push(99);
    let a = DelegateArgs::try_from_bytes(&bytes).ok().unwrap();
    assert_eq!((a.bump(), a.validator()), (4, Some([33u8; 32])));
    assert_eq!(DelegateArgs::try_from_bytes(&[4, 1, 2]).err(), Some(ProgramError::InvalidInstructionData));
    assert_eq!(DelegateArgs::try_from_bytes(&[]).err(), Some(ProgramError::InvalidInstructionData));
}

#[test]
fn member_flags() {
    let mut f = MemberFlags::from_acl_flag_byte(TX_LOGS);
    assert!(!f.has(AUTHORITY));
    f.set(AUTHORITY);
    assert!(f.has(AUTHORITY) && f.has(TX_LOGS));
    f.remove(TX_LOGS);
    assert_eq!(f.to_acl_flag_byte(), AUTHORITY);
    assert_eq!(MemberFlags::new().bits, 0);
    let g = MemberFlags::from_acl_flags_bytes([0, 1, 7, 0, 1]);
    assert_eq!(g.bits, TX_LOGS | TX_BALANCES | ACCOUNT_SIGNATURES);
    assert_eq!(MemberFlags::from_acl_flags_bytes([1, 0, 0, 1, 0]).bits, AUTHORITY | TX_MESSAGE);
}

#[test]
fn record_layouts() {
    let rec = EphemeralAta { owner: USER, mint: MINT, amount: 0x0102030405060708 };
    let bytes = rec.to_bytes();
    assert_eq!(bytes.len(), 72);
    assert_eq!(&bytes[0..32], &USER);
    assert_eq!(&bytes[32..64], &MINT);
    assert_eq!(&bytes[64..72], &[8, 7, 6, 5, 4, 3, 2, 1]);
    let back = EphemeralAta::from_bytes(&bytes).ok().unwrap();
    assert_eq!((back.owner, back.mint, back.amount), (USER, MINT, 0x0102030405060708));
    assert!(back.is_initialized());
    assert_eq!(EphemeralAta::from_bytes(&bytes[..71]).err(), Some(ProgramError::InvalidAccountData));
    let blank = EphemeralAta::from_bytes(&[0u8; 72]).ok().unwrap();
    assert!(!blank.is_initialized());
    let v = GlobalVault::from_bytes(&MINT).ok().unwrap();
    assert!(v.is_initialized());
    assert_eq!(v.to_bytes(), MINT.to_vec());
    assert!(!GlobalVault::from_bytes(&[0u8; 32]).ok().unwrap().is_initialized());
    assert!(GlobalVault::from_bytes(&[0u8; 33]).is_err());
    assert_eq!(address_bytes(&USER), USER.to_vec());
}

#[test]
fn derived_address_checks() {
    let (addr, bump) = Address::find_program_address(&[&USER, &MINT], &Address::new_from_array(PROGRAM));
    let addr = addr.to_bytes();
    assert!(check_derived(&PROGRAM, balance_seeds(&USER, &MINT), bump, &addr));
    assert!(!check_derived(&PROGRAM, balance_seeds(&MINT, &USER), bump, &addr));
    assert!(!check_derived(&[3u8; 32], balance_seeds(&USER, &MINT), bump, &addr));
    assert!(check_canonical(&PROGRAM, &balance_seeds(&USER, &MINT), &addr));
    assert!(!check_canonical(&PROGRAM, &balance_seeds(&USER, &MINT), &USER));
}

#[test]
fn mint_decimals_reads_the_mint() {
    let mut data = vec![0u8; 82];
    data[44] = 9;
    assert_eq!(mint_decimals(&programs(), &account(MINT, TOKEN, data.clone())), Ok(9));
    assert_eq!(mint_decimals(&programs(), &account(MINT, SYSTEM, data)), Err(ProgramError::InvalidAccountData));
    assert_eq!(mint_decimals(&programs(), &account(MINT, TOKEN, vec![0u8; 81])), Err(ProgramError::InvalidAccountData));
}

#[test]
fn undelegation_callback_restores_ephemeral_ata() {
    let accounts: Vec<Account> = (0..4u8).map(|i| account([i + 1; 32], SYSTEM, vec![])).collect();
    let data = [196u8, 28, 41, 206, 48, 37, 51, 167, 1, 0, 0, 0];
    let action = process_instruction(&programs(), &accounts, &data).ok().unwrap();
    match &action.call {
        Some(ServiceCall::RestoreUndelegated { delegated, buffer, payer, callback_args }) => {
            assert_eq!((*delegated, *buffer, *payer), (0, 1, 2));
            assert_eq!(callback_args, &vec![1u8, 0, 0, 0]);
        }
        _ => panic!("expected a restore"),
    }
    assert_eq!(
        process_instruction(&programs(), &accounts, &[196u8, 1, 2]).err(),
        Some(ProgramError::InvalidInstructionData)
    );
    assert_eq!(
        process_instruction(&programs(), &accounts[..3], &data).err(),
        Some(ProgramError::NotEnoughAccountKeys)
    );
    assert_eq!(bytes_from(&[1, 2, 3], 1), vec![2, 3]);
}

#[test]
fn undelegate_ephemeral_ata_checks_token_account() {
    let (addr, _) = Address::find_program_address(&[&USER, &MINT], &Address::new_from_array(PROGRAM));
    let rec = EphemeralAta { owner: USER, mint: MINT, amount: 7 }.to_bytes();
    let mut token = vec![0u8; 165];
    token[0..32].copy_from_slice(&MINT);
    token[32..64].copy_from_slice(&USER);
    let mut payer = account(USER, SYSTEM, vec![]);
    payer.is_signer = true;
    let mut accounts = vec![
        payer,
        account([40u8; 32], TOKEN, token.clone()),
        account(addr.to_bytes(), PROGRAM, rec),
        account([60u8; 32], SYSTEM, vec![]),
        account([61u8; 32], SYSTEM, vec![]),
    ];
    let action = process_instruction(&programs(), &accounts, &[5]).ok().unwrap();
    match &action.call {
        Some(ServiceCall::CommitAndUndelegate { payer, account, magic_context, magic_program }) => {
            assert_eq!((*payer, *account, *magic_context, *magic_program), (0, 2, 3, 4));
        }
        _ => panic!("expected a commit and undelegation"),
    }
    token[32..64].copy_from_slice(&[66u8; 32]);
    accounts[1] = account([40u8; 32], TOKEN, token);
    assert_eq!(process_instruction(&programs(), &accounts, &[5]).err(), Some(ProgramError::InvalidAccountData));
    accounts[2].address = [67u8; 32];
    assert_eq!(process_instruction(&programs(), &accounts, &[5]).err(), Some(ProgramError::InvalidSeeds));
    accounts[0].is_signer = false;
    assert_eq!(process_instruction(&programs(), &accounts, &[5]).err(), Some(ProgramError::MissingRequiredSignature));
}
