use vstd::prelude::*;

verus! {

/// Errors that an instruction of this program can end with.
#[derive(Clone, Copy, Debug, PartialEq, Eq, Structural)]
pub enum ProgramError {
    /// An arithmetic operation on an amount overflowed or underflowed.
    InvalidArgument,
    /// The payload is shorter than the instruction requires.
    InvalidInstructionData,
    /// An account is owned by the wrong party, is not initialized, or holds
    /// data that does not match the other accounts.
    InvalidAccountData,
    /// Fewer accounts than the instruction requires.
    NotEnoughAccountKeys,
    /// A required signer did not sign.
    MissingRequiredSignature,
    /// A derived address does not match its seeds.
    InvalidSeeds,
    /// The signer is not the owner named in the record.
    IncorrectAuthority,
    /// An error of this program's own, by code.
    Custom(u32),
}

/// Errors specific to this program.
#[derive(Clone, Copy, Debug, PartialEq, Eq, Structural)]
pub enum EphemeralSplError {
    /// Empty payload or unknown opcode.
    InvalidInstruction,
    /// The account is already initialized, or is delegated.
    AlreadyInUse,
}

/// The numeric code of each program error.
pub open spec fn error_code(e: EphemeralSplError) -> u32 {
    match e {
        EphemeralSplError::InvalidInstruction => 0,
        EphemeralSplError::AlreadyInUse => 1,
    }
}

impl EphemeralSplError {
    /// The numeric code under which the error is reported to the host.
    pub fn code(&self) -> (r: u32)
        ensures
            r == error_code(*self),
    {
        match self {
            EphemeralSplError::InvalidInstruction => 0,
            EphemeralSplError::AlreadyInUse => 1,
        }
    }

    /// A short message describing the error.
    pub fn to_str(&self) -> (r: &'static str)
        ensures
            *self == EphemeralSplError::InvalidInstruction ==> r@ == "Error: Invalid instruction"@,
            *self == EphemeralSplError::AlreadyInUse ==> r@ == "Error: Account already in use"@,
    {
        match self {
            EphemeralSplError::InvalidInstruction => {
                proof {
                    reveal_strlit("Error: Invalid instruction");
                }
                "Error: Invalid instruction"
            },
            EphemeralSplError::AlreadyInUse => {
                proof {
                    reveal_strlit("Error: Account already in use");
                }
                "Error: Account already in use"
            },
        }
    }
}

impl From<EphemeralSplError> for ProgramError {
    fn from(e: EphemeralSplError) -> (r: ProgramError) {
        ProgramError::Custom(e.code())
    }
}

impl vstd::std_specs::convert::FromSpecImpl<EphemeralSplError> for ProgramError {
    open spec fn obeys_from_spec() -> bool {
        true
    }

    open spec fn from_spec(e: EphemeralSplError) -> ProgramError {
        ProgramError::Custom(error_code(e))
    }
}

/// The program error that a custom error code stands for, if any.
pub open spec fn error_of_code(v: u32) -> Result<EphemeralSplError, ProgramError> {
    if v == 0 {
        Ok(EphemeralSplError::InvalidInstruction)
    } else if v == 1 {
        Ok(EphemeralSplError::AlreadyInUse)
    } else {
        Err(ProgramError::InvalidArgument)
    }
}

impl TryFrom<u32> for EphemeralSplError {
    type Error = ProgramError;

    fn try_from(v: u32) -> (r: Result<EphemeralSplError, ProgramError>) {
        match v {
            0 => Ok(EphemeralSplError::InvalidInstruction),
            1 => Ok(EphemeralSplError::AlreadyInUse),
            _ => Err(ProgramError::InvalidArgument),
        }
    }
}

impl vstd::std_specs::convert::TryFromSpecImpl<u32> for EphemeralSplError {
    open spec fn obeys_try_from_spec() -> bool {
        true
    }

    open spec fn try_from_spec(v: u32) -> Result<EphemeralSplError, ProgramError> {
        error_of_code(v)
    }
}

/// The error for an already initialized or delegated account.
pub open spec fn already_in_use() -> ProgramError {
    ProgramError::Custom(error_code(EphemeralSplError::AlreadyInUse))
}

/// The error for an empty payload or an unknown opcode.
pub open spec fn invalid_instruction() -> ProgramError {
    ProgramError::Custom(error_code(EphemeralSplError::InvalidInstruction))
}

} // verus!
