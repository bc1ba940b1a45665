use vstd::prelude::*;

verus! {

/// Errors of this program, reported to the runtime as `Custom(code)`.
#[derive(Clone, Copy, Debug, PartialEq, Eq, Structural)]
pub enum CustomError {
    InvalidSfbp,
    AuthKeyFailure,
    InvalidConfigAccount,
}

impl CustomError {
    /// The numeric code of the error: its position in the declaration.
    pub open spec fn spec_code(self) -> u32 {
        match self {
            CustomError::InvalidSfbp => 0,
            CustomError::AuthKeyFailure => 1,
            CustomError::InvalidConfigAccount => 2,
        }
    }

    pub fn code(&self) -> (r: u32)
        ensures
            r == self.spec_code(),
    {
        match self {
            CustomError::InvalidSfbp => 0,
            CustomError::AuthKeyFailure => 1,
            CustomError::InvalidConfigAccount => 2,
        }
    }

    /// The diagnostic line logged for the error.
    pub fn message(&self) -> (r: String)
        ensures
            r@ == self.spec_message(),
    {
        match self {
            CustomError::InvalidSfbp => "sfbp must be below 10000".to_string(),
            CustomError::AuthKeyFailure => "Authority key mismatch.".to_string(),
            CustomError::InvalidConfigAccount => "Invalid Config Account".to_string(),
        }
    }

    pub open spec fn spec_message(self) -> Seq<char> {
        match self {
            CustomError::InvalidSfbp => "sfbp must be below 10000"@,
            CustomError::AuthKeyFailure => "Authority key mismatch."@,
            CustomError::InvalidConfigAccount => "Invalid Config Account"@,
        }
    }
}

/// The error reported to the runtime when an instruction fails.
#[derive(Clone, Copy, Debug, PartialEq, Eq, Structural)]
pub enum ProgramError {
    Custom(u32),
    InvalidArgument,
    InvalidInstructionData,
    InvalidAccountData,
    MissingRequiredSignature,
}

impl ProgramError {
    /// The error that a custom error of this program is reported as.
    pub open spec fn of(e: CustomError) -> ProgramError {
        ProgramError::Custom(e.spec_code())
    }
}

impl From<CustomError> for ProgramError {
    fn from(e: CustomError) -> (r: ProgramError)
        ensures
            r == ProgramError::of(e),
    {
        ProgramError::Custom(e.code())
    }
}

impl vstd::std_specs::convert::FromSpecImpl<CustomError> for ProgramError {
    open spec fn obeys_from_spec() -> bool {
        true
    }

    open spec fn from_spec(v: CustomError) -> ProgramError {
        ProgramError::of(v)
    }
}

} // verus!
