//! The checks that every handler applies before it reads an account's bytes
//! or acts on its behalf.
use vstd::prelude::*;

use crate::account::{Account, Programs};
use crate::action::DerivedSeeds;
use crate::address::{
    address_bytes, canonical_program_address, create_program_address, find_program_address,
    program_address, same_address, Address,
};
use crate::error::ProgramError;
use crate::state::{
    ata_mint, ata_owner, ata_amount, vault_mint, zero_address, EphemeralAta, GlobalVault,
    EPHEMERAL_ATA_LEN, GLOBAL_VAULT_LEN,
};

verus! {

/// Size in bytes of a mint of the token-transfer service.
pub const MINT_LEN: usize = 82;

/// Position of the decimal precision in a mint.
pub const MINT_DECIMALS_OFFSET: usize = 44;

/// Size in bytes of a token account of the token-transfer service.
pub const TOKEN_ACCOUNT_LEN: usize = 165;

/// Whether the account holds a balance record of this program.
pub open spec fn holds_ata(cfg: Programs, a: Account) -> bool {
    a.owner@ == cfg.program_id@ && a.data@.len() == EPHEMERAL_ATA_LEN
}

/// Whether the account holds a vault record of this program.
pub open spec fn holds_vault(cfg: Programs, a: Account) -> bool {
    a.owner@ == cfg.program_id@ && a.data@.len() == GLOBAL_VAULT_LEN
}

/// Whether balance-record bytes are initialized.
pub open spec fn ata_initialized(d: Seq<u8>) -> bool {
    ata_mint(d) != zero_address()
}

/// Whether vault-record bytes are initialized.
pub open spec fn vault_initialized(d: Seq<u8>) -> bool {
    vault_mint(d) != zero_address()
}

/// Whether the account is a mint of the token-transfer service.
pub open spec fn is_mint(cfg: Programs, a: Account) -> bool {
    a.owner@ == cfg.token_program@ && a.data@.len() == MINT_LEN
}

/// Whether the account is a token account of the token-transfer service.
pub open spec fn is_token_account(cfg: Programs, a: Account) -> bool {
    a.owner@ == cfg.token_program@ && a.data@.len() == TOKEN_ACCOUNT_LEN
}

/// Whether `seeds` with `bump` derive `addr` under `program`.
pub open spec fn derives(program: Seq<u8>, seeds: Seq<Seq<u8>>, bump: u8, addr: Seq<u8>) -> bool {
    program_address(seeds.push(seq![bump]), program) == Some(addr)
}

/// Whether `addr` is the canonical derived address of `seeds` under `program`.
pub open spec fn derives_canonically(program: Seq<u8>, seeds: Seq<Seq<u8>>, addr: Seq<u8>) -> bool {
    canonical_program_address(seeds, program) matches Some((a, _)) && a == addr
}

/// The namespace tag of permission records, "permission:".
pub open spec fn permission_tag() -> Seq<u8> {
    seq![112u8, 101u8, 114u8, 109u8, 105u8, 115u8, 115u8, 105u8, 111u8, 110u8, 58u8]
}

/// Whether `permission` is the permission record's address for the balance
/// record at `record`.
pub open spec fn is_permission_of(cfg: Programs, record: Seq<u8>, permission: Seq<u8>) -> bool {
    derives_canonically(cfg.permission_program@, seq![permission_tag(), record], permission)
}

/// Reads the balance record held by `acct`, checking first that this program
/// owns the account.
pub fn load_ata(cfg: &Programs, acct: &Account) -> (r: Result<EphemeralAta, ProgramError>)
    ensures
        !holds_ata(*cfg, *acct) ==> r == Err::<EphemeralAta, ProgramError>(
            ProgramError::InvalidAccountData,
        ),
        holds_ata(*cfg, *acct) ==> (r matches Ok(a) && a.owner@ == ata_owner(acct.data@) && a.mint@
            == ata_mint(acct.data@) && a.amount == ata_amount(acct.data@)),
{
    if !same_address(&acct.owner, &cfg.program_id) {
        return Err(ProgramError::InvalidAccountData);
    }
    EphemeralAta::from_bytes(acct.data.as_slice())
}

/// Reads the vault record held by `acct`, checking first that this program
/// owns the account.
pub fn load_vault(cfg: &Programs, acct: &Account) -> (r: Result<GlobalVault, ProgramError>)
    ensures
        !holds_vault(*cfg, *acct) ==> r == Err::<GlobalVault, ProgramError>(
            ProgramError::InvalidAccountData,
        ),
        holds_vault(*cfg, *acct) ==> (r matches Ok(v) && v.mint@ == vault_mint(acct.data@)),
{
    if !same_address(&acct.owner, &cfg.program_id) {
        return Err(ProgramError::InvalidAccountData);
    }
    GlobalVault::from_bytes(acct.data.as_slice())
}

/// The deep view of a list of byte strings is the list of their views.
pub proof fn lemma_seeds_deep_view(r: Vec<Vec<u8>>)
    ensures
        r.deep_view() == Seq::new(r@.len(), |i: int| r@[i]@),
{
    assert forall|i: int| 0 <= i < r@.len() implies r@[i].deep_view() == r@[i]@ by {
        assert(r@[i].deep_view() =~= r@[i]@);
    }
    assert(r.deep_view() =~= Seq::new(r@.len(), |i: int| r@[i]@));
}

/// The seeds of a balance record's address: owner, then mint.
pub fn balance_seeds(owner: &Address, mint: &Address) -> (r: Vec<Vec<u8>>)
    ensures
        r.deep_view() == seq![owner@, mint@],
{
    let mut r: Vec<Vec<u8>> = Vec::new();
    r.push(address_bytes(owner));
    r.push(address_bytes(mint));
    proof {
        lemma_seeds_deep_view(r);
    }
    assert(r.deep_view() =~= seq![owner@, mint@]);
    r
}

/// The seeds of a vault record's address: the mint.
pub fn vault_seeds(mint: &Address) -> (r: Vec<Vec<u8>>)
    ensures
        r.deep_view() == seq![mint@],
{
    let mut r: Vec<Vec<u8>> = Vec::new();
    r.push(address_bytes(mint));
    proof {
        lemma_seeds_deep_view(r);
    }
    assert(r.deep_view() =~= seq![mint@]);
    r
}

/// The seeds of a permission record's address: the tag, then the balance
/// record's address.
pub fn permission_seeds(record: &Address) -> (r: Vec<Vec<u8>>)
    ensures
        r.deep_view() == seq![permission_tag(), record@],
{
    let mut tag: Vec<u8> = Vec::new();
    tag.push(112u8);
    tag.push(101u8);
    tag.push(114u8);
    tag.push(109u8);
    tag.push(105u8);
    tag.push(115u8);
    tag.push(115u8);
    tag.push(105u8);
    tag.push(111u8);
    tag.push(110u8);
    tag.push(58u8);
    assert(tag@ =~= permission_tag());
    let mut r: Vec<Vec<u8>> = Vec::new();
    r.push(tag);
    r.push(address_bytes(record));
    proof {
        lemma_seeds_deep_view(r);
    }
    assert(r.deep_view() =~= seq![permission_tag(), record@]);
    r
}

/// The seeds of a balance record with its bump, ready to sign with.
pub fn balance_signer(owner: &Address, mint: &Address, bump: u8) -> (r: DerivedSeeds)
    ensures
        r.seeds.deep_view() == seq![owner@, mint@],
        r.bump == bump,
{
    DerivedSeeds { seeds: balance_seeds(owner, mint), bump }
}

/// Whether `seeds` with `bump` derive `addr` under `program`.
pub fn check_derived(program: &Address, seeds: Vec<Vec<u8>>, bump: u8, addr: &Address) -> (r: bool)
    ensures
        r == derives(program@, seeds.deep_view(), bump, addr@),
{
    let ghost s = seeds;
    let mut full = seeds;
    let mut b: Vec<u8> = Vec::new();
    b.push(bump);
    full.push(b);
    proof {
        lemma_seeds_deep_view(s);
        lemma_seeds_deep_view(full);
    }
    assert(full.deep_view() =~= s.deep_view().push(seq![bump]));
    match create_program_address(&full, program) {
        Some(a) => same_address(&a, addr),
        None => false,
    }
}

/// Whether `addr` is the canonical derived address of `seeds` under `program`.
pub fn check_canonical(program: &Address, seeds: &Vec<Vec<u8>>, addr: &Address) -> (r: bool)
    ensures
        r == derives_canonically(program@, seeds.deep_view(), addr@),
{
    match find_program_address(seeds, program) {
        Some((a, _)) => same_address(&a, addr),
        None => false,
    }
}

/// The decimal precision of the mint held by `acct`.
pub fn mint_decimals(cfg: &Programs, acct: &Account) -> (r: Result<u8, ProgramError>)
    ensures
        !is_mint(*cfg, *acct) ==> r == Err::<u8, ProgramError>(ProgramError::InvalidAccountData),
        is_mint(*cfg, *acct) ==> r == Ok::<u8, ProgramError>(acct.data@[MINT_DECIMALS_OFFSET as int]),
{
    if acct.data.len() != MINT_LEN || !same_address(&acct.owner, &cfg.token_program) {
        return Err(ProgramError::InvalidAccountData);
    }
    Ok(acct.data[MINT_DECIMALS_OFFSET])
}

} // verus!
