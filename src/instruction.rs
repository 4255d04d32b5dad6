//! Bounds-checked readers of each instruction's payload (the bytes after
//! the opcode).
use vstd::prelude::*;

use crate::address::{read_address, Address};
use crate::error::ProgramError;
use crate::state::le_u64;

verus! {

/// The little-endian integer in the eight bytes at `off`.
pub fn read_u64_le(bytes: &[u8], off: usize) -> (r: u64)
    requires
        off + 8 <= bytes@.len(),
    ensures
        r == le_u64(bytes@.subrange(off as int, off + 8)),
{
    (bytes[off] as u64) | ((bytes[off + 1] as u64) << 8u64) | ((bytes[off + 2] as u64) << 16u64)
        | ((bytes[off + 3] as u64) << 24u64) | ((bytes[off + 4] as u64) << 32u64) | ((bytes[off
        + 5] as u64) << 40u64) | ((bytes[off + 6] as u64) << 48u64) | ((bytes[off + 7] as u64)
        << 56u64)
}

/// Payload of initialize-balance-record: the bump of the record's address.
pub struct InitializeEphemeralAta {
    pub bump: u8,
}

impl InitializeEphemeralAta {
    /// Reads the payload; it must hold at least one byte.
    pub fn try_from_bytes(bytes: &[u8]) -> (r: Result<InitializeEphemeralAta, ProgramError>)
        ensures
            bytes@.len() < 1 ==> r == Err::<InitializeEphemeralAta, ProgramError>(
                ProgramError::InvalidInstructionData,
            ),
            bytes@.len() >= 1 ==> (r matches Ok(a) && a.bump == bytes@[0]),
    {
        if bytes.len() < 1 {
            return Err(ProgramError::InvalidInstructionData);
        }
        Ok(InitializeEphemeralAta { bump: bytes[0] })
    }

    pub fn bump(&self) -> (r: u8)
        ensures
            r == self.bump,
    {
        self.bump
    }
}

/// Payload of initialize-vault-record: the bump of the vault's address.
pub struct InitializeGlobalVault {
    pub bump: u8,
}

impl InitializeGlobalVault {
    /// Reads the payload; it must hold at least one byte.
    pub fn try_from_bytes(bytes: &[u8]) -> (r: Result<InitializeGlobalVault, ProgramError>)
        ensures
            bytes@.len() < 1 ==> r == Err::<InitializeGlobalVault, ProgramError>(
                ProgramError::InvalidInstructionData,
            ),
            bytes@.len() >= 1 ==> (r matches Ok(a) && a.bump == bytes@[0]),
    {
        if bytes.len() < 1 {
            return Err(ProgramError::InvalidInstructionData);
        }
        Ok(InitializeGlobalVault { bump: bytes[0] })
    }

    pub fn bump(&self) -> (r: u8)
        ensures
            r == self.bump,
    {
        self.bump
    }
}

/// Payload of deposit: the amount, eight little-endian bytes.
pub struct DepositArgs {
    pub amount: u64,
}

impl DepositArgs {
    /// Reads the payload; it must hold at least eight bytes.
    pub fn try_from_bytes(bytes: &[u8]) -> (r: Result<DepositArgs, ProgramError>)
        ensures
            bytes@.len() < 8 ==> r == Err::<DepositArgs, ProgramError>(
                ProgramError::InvalidInstructionData,
            ),
            bytes@.len() >= 8 ==> (r matches Ok(a) && a.amount == le_u64(bytes@.subrange(0, 8))),
    {
        if bytes.len() < 8 {
            return Err(ProgramError::InvalidInstructionData);
        }
        Ok(DepositArgs { amount: read_u64_le(bytes, 0) })
    }

    pub fn amount(&self) -> (r: u64)
        ensures
            r == self.amount,
    {
        self.amount
    }
}

/// Payload of withdraw: the amount, eight little-endian bytes, then the bump
/// of the vault's address.
pub struct WithdrawArgs {
    pub amount: u64,
    pub bump: u8,
}

impl WithdrawArgs {
    /// Reads the payload; it must hold at least nine bytes.
    pub fn try_from_bytes(bytes: &[u8]) -> (r: Result<WithdrawArgs, ProgramError>)
        ensures
            bytes@.len() < 9 ==> r == Err::<WithdrawArgs, ProgramError>(
                ProgramError::InvalidInstructionData,
            ),
            bytes@.len() >= 9 ==> (r matches Ok(a) && a.amount == le_u64(bytes@.subrange(0, 8))
                && a.bump == bytes@[8]),
    {
        if bytes.len() < 9 {
            return Err(ProgramError::InvalidInstructionData);
        }
        Ok(WithdrawArgs { amount: read_u64_le(bytes, 0), bump: bytes[8] })
    }

    pub fn amount(&self) -> (r: u64)
        ensures
            r == self.amount,
    {
        self.amount
    }

    pub fn bump(&self) -> (r: u8)
        ensures
            r == self.bump,
    {
        self.bump
    }
}

/// Whether a delegation payload is well formed: a bump, then nothing or at
/// least 32 bytes of executor identity.
pub open spec fn delegate_payload_ok(b: Seq<u8>) -> bool {
    b.len() == 1 || b.len() >= 33
}

/// Payload of delegate-balance-record: the bump of the record's address and
/// the executor that is to receive it, if one is chosen.
pub struct DelegateArgs {
    pub bump: u8,
    pub validator: Option<Address>,
}

impl DelegateArgs {
    /// Reads the payload: a bump, then either nothing or a 32-byte identity
    /// (bytes after it are ignored).
    pub fn try_from_bytes(bytes: &[u8]) -> (r: Result<DelegateArgs, ProgramError>)
        ensures
            !delegate_payload_ok(bytes@) ==> r == Err::<DelegateArgs, ProgramError>(
                ProgramError::InvalidInstructionData,
            ),
            delegate_payload_ok(bytes@) ==> (r matches Ok(a) && a.bump == bytes@[0] && (if bytes@.len()
                == 1 {
                a.validator is None
            } else {
                a.validator matches Some(v) && v@ == bytes@.subrange(1, 33)
            })),
    {
        if bytes.len() < 1 {
            return Err(ProgramError::InvalidInstructionData);
        }
        let bump = bytes[0];
        let validator = if bytes.len() == 1 {
            None
        } else if bytes.len() >= 33 {
            Some(read_address(bytes, 1))
        } else {
            return Err(ProgramError::InvalidInstructionData);
        };
        Ok(DelegateArgs { bump, validator })
    }

    pub fn validator(&self) -> (r: Option<Address>)
        ensures
            r == self.validator,
    {
        self.validator
    }

    pub fn bump(&self) -> (r: u8)
        ensures
            r == self.bump,
    {
        self.bump
    }
}

/// Payload of delegate-permission: the bump of the balance record's address.
pub struct DelegatePermissionArgs {
    pub bump: u8,
}

impl DelegatePermissionArgs {
    /// Reads the payload; it must hold at least one byte.
    pub fn try_from_bytes(bytes: &[u8]) -> (r: Result<DelegatePermissionArgs, ProgramError>)
        ensures
            bytes@.len() < 1 ==> r == Err::<DelegatePermissionArgs, ProgramError>(
                ProgramError::InvalidInstructionData,
            ),
            bytes@.len() >= 1 ==> (r matches Ok(a) && a.bump == bytes@[0]),
    {
        if bytes.len() < 1 {
            return Err(ProgramError::InvalidInstructionData);
        }
        Ok(DelegatePermissionArgs { bump: bytes[0] })
    }

    pub fn bump(&self) -> (r: u8)
        ensures
            r == self.bump,
    {
        self.bump
    }
}

/// Payload of create-permission: the bump of the balance record's address,
/// then five flag bytes.
pub struct CreateEphemeralAtaPermission {
    pub bump: u8,
    pub flags_bytes: [u8; 5],
}

impl CreateEphemeralAtaPermission {
    /// Reads the payload; it must hold at least six bytes.
    pub fn try_from_bytes(bytes: &[u8]) -> (r: Result<CreateEphemeralAtaPermission, ProgramError>)
        ensures
            bytes@.len() < 6 ==> r == Err::<CreateEphemeralAtaPermission, ProgramError>(
                ProgramError::InvalidInstructionData,
            ),
            bytes@.len() >= 6 ==> (r matches Ok(a) && a.bump == bytes@[0] && a.flags_bytes@
                == bytes@.subrange(1, 6)),
    {
        if bytes.len() < 6 {
            return Err(ProgramError::InvalidInstructionData);
        }
        let flags_bytes: [u8; 5] = [bytes[1], bytes[2], bytes[3], bytes[4], bytes[5]];
        assert(flags_bytes@ =~= bytes@.subrange(1, 6));
        Ok(CreateEphemeralAtaPermission { bump: bytes[0], flags_bytes })
    }

    pub fn bump(&self) -> (r: u8)
        ensures
            r == self.bump,
    {
        self.bump
    }

    pub fn flags_bytes(&self) -> (r: [u8; 5])
        ensures
            r == self.flags_bytes,
    {
        self.flags_bytes
    }
}

/// Payload of update-permission: the bump of the balance record's address,
/// then the one-byte flag encoding.
pub struct UpdateEphemeralAtaPermission {
    pub bump: u8,
    pub flag_byte: u8,
}

impl UpdateEphemeralAtaPermission {
    /// Reads the payload; it must hold at least two bytes.
    pub fn try_from_bytes(bytes: &[u8]) -> (r: Result<UpdateEphemeralAtaPermission, ProgramError>)
        ensures
            bytes@.len() < 2 ==> r == Err::<UpdateEphemeralAtaPermission, ProgramError>(
                ProgramError::InvalidInstructionData,
            ),
            bytes@.len() >= 2 ==> (r matches Ok(a) && a.bump == bytes@[0] && a.flag_byte
                == bytes@[1]),
    {
        if bytes.len() < 2 {
            return Err(ProgramError::InvalidInstructionData);
        }
        Ok(UpdateEphemeralAtaPermission { bump: bytes[0], flag_byte: bytes[1] })
    }

    pub fn bump(&self) -> (r: u8)
        ensures
            r == self.bump,
    {
        self.bump
    }

    pub fn flag_byte(&self) -> (r: u8)
        ensures
            r == self.flag_byte,
    {
        self.flag_byte
    }
}

/// Payload of reset-permission: the bump of the balance record's address,
/// then the one-byte flag encoding.
pub struct ResetEphemeralAtaPermission {
    pub bump: u8,
    pub flag_byte: u8,
}

impl ResetEphemeralAtaPermission {
    /// Reads the payload; it must hold at least two bytes.
    pub fn try_from_bytes(bytes: &[u8]) -> (r: Result<ResetEphemeralAtaPermission, ProgramError>)
        ensures
            bytes@.len() < 2 ==> r == Err::<ResetEphemeralAtaPermission, ProgramError>(
                ProgramError::InvalidInstructionData,
            ),
            bytes@.len() >= 2 ==> (r matches Ok(a) && a.bump == bytes@[0] && a.flag_byte
                == bytes@[1]),
    {
        if bytes.len() < 2 {
            return Err(ProgramError::InvalidInstructionData);
        }
        Ok(ResetEphemeralAtaPermission { bump: bytes[0], flag_byte: bytes[1] })
    }

    pub fn bump(&self) -> (r: u8)
        ensures
            r == self.bump,
    {
        self.bump
    }

    pub fn flag_byte(&self) -> (r: u8)
        ensures
            r == self.flag_byte,
    {
        self.flag_byte
    }
}

/// Payload of close-permission: the bump of the balance record's address.
pub struct CloseEphemeralAtaPermission {
    pub bump: u8,
}

impl CloseEphemeralAtaPermission {
    /// Reads the payload; it must hold at least one byte.
    pub fn try_from_bytes(bytes: &[u8]) -> (r: Result<CloseEphemeralAtaPermission, ProgramError>)
        ensures
            bytes@.len() < 1 ==> r == Err::<CloseEphemeralAtaPermission, ProgramError>(
                ProgramError::InvalidInstructionData,
            ),
            bytes@.len() >= 1 ==> (r matches Ok(a) && a.bump == bytes@[0]),
    {
        if bytes.len() < 1 {
            return Err(ProgramError::InvalidInstructionData);
        }
        Ok(CloseEphemeralAtaPermission { bump: bytes[0] })
    }

    pub fn bump(&self) -> (r: u8)
        ensures
            r == self.bump,
    {
        self.bump
    }
}

} // verus!
