//! The error taxonomy: the program's own checks plus the host-level
//! conditions that the orchestrator surfaces unchanged.

use vstd::prelude::*;

verus! {

/// An error raised by this program's own validation.
#[derive(Clone, Copy, Debug, PartialEq, Eq, Structural)]
pub enum GloweError {
    /// The wire message could not be decoded.
    InvalidInstruction,
    /// A provided account is not rent exempt (reserved, never raised here).
    NotRentExempt,
    /// A provided account did not match the expected account.
    AccountMismatch,
}

impl GloweError {
    /// The numeric code under which this error is surfaced to the host.
    pub open spec fn spec_code(&self) -> u32 {
        match self {
            GloweError::InvalidInstruction => 0,
            GloweError::NotRentExempt => 1,
            GloweError::AccountMismatch => 2,
        }
    }

    /// Returns the numeric code of this error.
    pub fn code(&self) -> (r: u32)
        ensures
            r == self.spec_code(),
    {
        match self {
            GloweError::InvalidInstruction => 0,
            GloweError::NotRentExempt => 1,
            GloweError::AccountMismatch => 2,
        }
    }
}

/// A failure of the orchestration pipeline: either one of this program's own
/// errors or a host-level condition reported under the host's standard name.
#[derive(Clone, Copy, Debug, PartialEq, Eq, Structural)]
pub enum ProgramFault {
    /// One of this program's own errors.
    Custom(GloweError),
    /// The paying account did not carry the authorizing signature.
    MissingRequiredSignature,
    /// An account is owned by the wrong program.
    IllegalOwner,
    /// The supplied account list is shorter than the pipeline expects.
    NotEnoughAccountKeys,
    /// The supplied rent-parameters account is not the rent sysvar.
    InvalidArgument,
    /// No disambiguation byte yields a valid derived address.
    NoViableAddress,
}

impl core::convert::From<GloweError> for ProgramFault {
    /// Wraps a program error as a pipeline fault, as the host wraps a custom
    /// error code.
    fn from(e: GloweError) -> (r: ProgramFault) {
        ProgramFault::Custom(e)
    }
}

impl vstd::std_specs::convert::FromSpecImpl<GloweError> for ProgramFault {
    open spec fn obeys_from_spec() -> bool {
        true
    }

    open spec fn from_spec(e: GloweError) -> ProgramFault {
        ProgramFault::Custom(e)
    }
}

} // verus!
