use vstd::prelude::*;

use crate::address::Address;

verus! {

/// Access flags of one member of a permission record, one named bit each.
#[derive(Clone, Copy, Debug, PartialEq, Eq, Structural)]
pub struct MemberFlags {
    /// The bits, as the permission service stores them.
    pub bits: u8,
}

/// The member that keeps ultimate control over the permission record.
pub const AUTHORITY: u8 = 1;
/// Transaction logs may be shown.
pub const TX_LOGS: u8 = 2;
/// Transaction balances may be shown.
pub const TX_BALANCES: u8 = 4;
/// Transaction messages may be shown.
pub const TX_MESSAGE: u8 = 8;
/// Account signatures may be shown.
pub const ACCOUNT_SIGNATURES: u8 = 16;

/// Whether any bit of `flag` is set in `bits`.
pub open spec fn has_flag(bits: u8, flag: u8) -> bool {
    bits & flag != 0
}

/// The bits of five flag bytes, one per named flag in the order authority,
/// logs, balances, message, signatures; a non-zero byte sets its flag.
pub open spec fn bits_of_flag_bytes(b: Seq<u8>) -> u8 {
    (if b[0] != 0 { AUTHORITY } else { 0u8 }) | (if b[1] != 0 { TX_LOGS } else { 0u8 }) | (if b[2]
        != 0 {
        TX_BALANCES
    } else {
        0u8
    }) | (if b[3] != 0 { TX_MESSAGE } else { 0u8 }) | (if b[4] != 0 {
        ACCOUNT_SIGNATURES
    } else {
        0u8
    })
}

impl MemberFlags {
    /// No flag set.
    pub fn new() -> (r: MemberFlags)
        ensures
            r.bits == 0,
    {
        MemberFlags { bits: 0 }
    }

    /// Flags from their one-byte encoding.
    pub fn from_acl_flag_byte(byte: u8) -> (r: MemberFlags)
        ensures
            r.bits == byte,
    {
        MemberFlags { bits: byte }
    }

    /// Flags from their five-byte encoding, one byte per named flag.
    pub fn from_acl_flags_bytes(bytes: [u8; 5]) -> (r: MemberFlags)
        ensures
            r.bits == bits_of_flag_bytes(bytes@),
    {
        let bits: u8 = (if bytes[0] != 0 { AUTHORITY } else { 0u8 }) | (if bytes[1] != 0 {
            TX_LOGS
        } else {
            0u8
        }) | (if bytes[2] != 0 { TX_BALANCES } else { 0u8 }) | (if bytes[3] != 0 {
            TX_MESSAGE
        } else {
            0u8
        }) | (if bytes[4] != 0 { ACCOUNT_SIGNATURES } else { 0u8 });
        MemberFlags { bits }
    }

    /// The one-byte encoding.
    pub fn to_acl_flag_byte(&self) -> (r: u8)
        ensures
            r == self.bits,
    {
        self.bits
    }

    /// Whether any bit of `flag` is set.
    pub fn has(&self, flag: u8) -> (r: bool)
        ensures
            r == has_flag(self.bits, flag),
    {
        self.bits & flag != 0
    }

    /// Sets the bits of `flag`, keeping the others.
    pub fn set(&mut self, flag: u8)
        ensures
            final(self).bits == old(self).bits | flag,
    {
        self.bits = self.bits | flag;
    }

    /// Clears the bits of `flag`, keeping the others.
    pub fn remove(&mut self, flag: u8)
        ensures
            final(self).bits == old(self).bits & !flag,
    {
        self.bits = self.bits & !flag;
    }
}

/// One member of a permission record.
#[derive(Clone, Copy, Debug, PartialEq, Eq)]
pub struct Member {
    /// What the member may see or do.
    pub flags: MemberFlags,
    /// The member's identity.
    pub pubkey: Address,
}

/// Setting a flag makes it present and keeps every other flag as it was.
pub proof fn lemma_set_flag(bits: u8, flag: u8, other: u8)
    requires
        flag != 0,
        flag & other == 0,
    ensures
        has_flag(bits | flag, flag),
        has_flag(bits | flag, other) == has_flag(bits, other),
{
    assert((bits | flag) & flag != 0) by (bit_vector)
        requires
            flag != 0,
    ;
    assert(((bits | flag) & other != 0) == (bits & other != 0)) by (bit_vector)
        requires
            flag & other == 0,
    ;
}

} // verus!
