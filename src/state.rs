use vstd::prelude::*;

use crate::address::{address_bytes, read_address, same_address, Address};
use crate::error::ProgramError;

verus! {

/// Size in bytes of a balance record: owner, mint, amount.
pub const EPHEMERAL_ATA_LEN: usize = 72;

/// Size in bytes of a vault record: mint.
pub const GLOBAL_VAULT_LEN: usize = 32;

/// The all-zero address, which marks a record as not initialized.
pub open spec fn zero_address() -> Seq<u8> {
    Seq::new(32, |i: int| 0u8)
}

/// The little-endian integer held by the first eight bytes of `b`.
pub open spec fn le_u64(b: Seq<u8>) -> u64
    recommends
        b.len() >= 8,
{
    (b[0] as u64) | ((b[1] as u64) << 8u64) | ((b[2] as u64) << 16u64) | ((b[3] as u64) << 24u64)
        | ((b[4] as u64) << 32u64) | ((b[5] as u64) << 40u64) | ((b[6] as u64) << 48u64) | ((
    b[7] as u64) << 56u64)
}

/// The eight little-endian bytes of `v`.
pub open spec fn u64_le_bytes(v: u64) -> Seq<u8> {
    seq![
        (v & 0xff) as u8,
        ((v >> 8u64) & 0xff) as u8,
        ((v >> 16u64) & 0xff) as u8,
        ((v >> 24u64) & 0xff) as u8,
        ((v >> 32u64) & 0xff) as u8,
        ((v >> 40u64) & 0xff) as u8,
        ((v >> 48u64) & 0xff) as u8,
        ((v >> 56u64) & 0xff) as u8,
    ]
}

/// Reading back the bytes of an integer gives the integer.
pub proof fn lemma_le_round_trip(v: u64)
    ensures
        le_u64(u64_le_bytes(v)) == v,
{
    let b = u64_le_bytes(v);
    let b0 = (v & 0xff) as u8;
    let b1 = ((v >> 8u64) & 0xff) as u8;
    let b2 = ((v >> 16u64) & 0xff) as u8;
    let b3 = ((v >> 24u64) & 0xff) as u8;
    let b4 = ((v >> 32u64) & 0xff) as u8;
    let b5 = ((v >> 40u64) & 0xff) as u8;
    let b6 = ((v >> 48u64) & 0xff) as u8;
    let b7 = ((v >> 56u64) & 0xff) as u8;
    assert(b[0] == b0 && b[1] == b1 && b[2] == b2 && b[3] == b3);
    assert(b[4] == b4 && b[5] == b5 && b[6] == b6 && b[7] == b7);
    assert((b0 as u64) | ((b1 as u64) << 8u64) | ((b2 as u64) << 16u64) | ((b3 as u64) << 24u64)
        | ((b4 as u64) << 32u64) | ((b5 as u64) << 40u64) | ((b6 as u64) << 48u64) | ((b7 as u64)
        << 56u64) == v) by (bit_vector)
        requires
            b0 == (v & 0xff) as u8,
            b1 == ((v >> 8u64) & 0xff) as u8,
            b2 == ((v >> 16u64) & 0xff) as u8,
            b3 == ((v >> 24u64) & 0xff) as u8,
            b4 == ((v >> 32u64) & 0xff) as u8,
            b5 == ((v >> 40u64) & 0xff) as u8,
            b6 == ((v >> 48u64) & 0xff) as u8,
            b7 == ((v >> 56u64) & 0xff) as u8,
    ;
}

/// The owner field of balance-record bytes.
pub open spec fn ata_owner(d: Seq<u8>) -> Seq<u8> {
    d.subrange(0, 32)
}

/// The mint field of balance-record bytes.
pub open spec fn ata_mint(d: Seq<u8>) -> Seq<u8> {
    d.subrange(32, 64)
}

/// The amount field of balance-record bytes.
pub open spec fn ata_amount(d: Seq<u8>) -> u64 {
    le_u64(d.subrange(64, 72))
}

/// The bytes of a balance record.
pub open spec fn ata_bytes(owner: Seq<u8>, mint: Seq<u8>, amount: u64) -> Seq<u8> {
    owner + mint + u64_le_bytes(amount)
}

/// The mint field of vault-record bytes.
pub open spec fn vault_mint(d: Seq<u8>) -> Seq<u8> {
    d.subrange(0, 32)
}

/// The fields of a balance record read back from its bytes.
pub proof fn lemma_ata_bytes_fields(owner: Seq<u8>, mint: Seq<u8>, amount: u64)
    requires
        owner.len() == 32,
        mint.len() == 32,
    ensures
        ata_bytes(owner, mint, amount).len() == EPHEMERAL_ATA_LEN,
        ata_owner(ata_bytes(owner, mint, amount)) == owner,
        ata_mint(ata_bytes(owner, mint, amount)) == mint,
        ata_amount(ata_bytes(owner, mint, amount)) == amount,
{
    let d = ata_bytes(owner, mint, amount);
    assert(ata_owner(d) =~= owner);
    assert(ata_mint(d) =~= mint);
    assert(d.subrange(64, 72) =~= u64_le_bytes(amount));
    lemma_le_round_trip(amount);
}

/// A balance record: the tokens of one mint that the pooled vault holds for
/// one owner.
pub struct EphemeralAta {
    /// The identity the balance belongs to.
    pub owner: Address,
    /// The mint associated with this account.
    pub mint: Address,
    /// The amount of tokens this account holds.
    pub amount: u64,
}

impl EphemeralAta {
    /// Reads a balance record from account data of exactly its size.
    pub fn from_bytes(data: &[u8]) -> (r: Result<EphemeralAta, ProgramError>)
        ensures
            data@.len() != EPHEMERAL_ATA_LEN ==> r == Err::<EphemeralAta, ProgramError>(
                ProgramError::InvalidAccountData,
            ),
            data@.len() == EPHEMERAL_ATA_LEN ==> (r matches Ok(a) && a.owner@ == ata_owner(data@)
                && a.mint@ == ata_mint(data@) && a.amount == ata_amount(data@)),
    {
        if data.len() != EPHEMERAL_ATA_LEN {
            return Err(ProgramError::InvalidAccountData);
        }
        let owner = read_address(data, 0);
        let mint = read_address(data, 32);
        let amount = (data[64] as u64) | ((data[65] as u64) << 8u64) | ((data[66] as u64) << 16u64)
            | ((data[67] as u64) << 24u64) | ((data[68] as u64) << 32u64) | ((data[69] as u64)
            << 40u64) | ((data[70] as u64) << 48u64) | ((data[71] as u64) << 56u64);
        Ok(EphemeralAta { owner, mint, amount })
    }

    /// The record's bytes, as stored in its account.
    pub fn to_bytes(&self) -> (r: Vec<u8>)
        ensures
            r@ == ata_bytes(self.owner@, self.mint@, self.amount),
    {
        let mut r = address_bytes(&self.owner);
        let mut m = address_bytes(&self.mint);
        r.append(&mut m);
        let v = self.amount;
        r.push((v & 0xff) as u8);
        r.push(((v >> 8u64) & 0xff) as u8);
        r.push(((v >> 16u64) & 0xff) as u8);
        r.push(((v >> 24u64) & 0xff) as u8);
        r.push(((v >> 32u64) & 0xff) as u8);
        r.push(((v >> 40u64) & 0xff) as u8);
        r.push(((v >> 48u64) & 0xff) as u8);
        r.push(((v >> 56u64) & 0xff) as u8);
        assert(r@ =~= ata_bytes(self.owner@, self.mint@, self.amount));
        r
    }

    /// A record is initialized once its mint is set.
    pub fn is_initialized(&self) -> (r: bool)
        ensures
            r == (self.mint@ != zero_address()),
    {
        let zero: Address = [0u8; 32];
        assert(zero@ =~= zero_address());
        !same_address(&self.mint, &zero)
    }
}

/// A vault record: one per mint, under which the pooled tokens are held.
pub struct GlobalVault {
    /// The mint associated with this vault.
    pub mint: Address,
}

impl GlobalVault {
    /// Reads a vault record from account data of exactly its size.
    pub fn from_bytes(data: &[u8]) -> (r: Result<GlobalVault, ProgramError>)
        ensures
            data@.len() != GLOBAL_VAULT_LEN ==> r == Err::<GlobalVault, ProgramError>(
                ProgramError::InvalidAccountData,
            ),
            data@.len() == GLOBAL_VAULT_LEN ==> (r matches Ok(v) && v.mint@ == vault_mint(data@)),
    {
        if data.len() != GLOBAL_VAULT_LEN {
            return Err(ProgramError::InvalidAccountData);
        }
        Ok(GlobalVault { mint: read_address(data, 0) })
    }

    /// The record's bytes, as stored in its account.
    pub fn to_bytes(&self) -> (r: Vec<u8>)
        ensures
            r@ == self.mint@,
    {
        address_bytes(&self.mint)
    }

    /// A vault is initialized once its mint is set.
    pub fn is_initialized(&self) -> (r: bool)
        ensures
            r == (self.mint@ != zero_address()),
    {
        let zero: Address = [0u8; 32];
        assert(zero@ =~= zero_address());
        !same_address(&self.mint, &zero)
    }
}

} // verus!
