//! Errors of the competition program.

use vstd::prelude::*;
use crate::program::ProgramError;

verus! {

/// Errors returned by competition instructions.
#[derive(Clone, Copy, Debug, PartialEq, Eq, Structural)]
pub enum TycheCoreError {
    /// An argument or account field is outside what the protocol accepts.
    InvalidAccountData,
    /// The account discriminator does not match the expected value.
    InvalidDiscriminator,
    /// The competition is not in the phase this instruction requires.
    InvalidPhase,
    /// The signer is not the competition authority.
    NotAuthority,
    /// The signer is not the configured crank authority.
    InvalidCrankAuthority,
    /// The competition has not reached its start time (or a start time is in the past).
    AuctionNotStarted,
    /// The competition's bidding window has not closed yet.
    AuctionNotExpired,
    /// The competition's bidding window has already closed.
    AuctionEnded,
    /// The soft-close extension cap is reached.
    SoftCloseCapReached,
    /// The current time is not inside the soft-close window.
    SoftCloseNotArmed,
    /// An active competition with bidders cannot be cancelled.
    HasParticipants,
    /// The competition account is still delegated.
    NotUndelegated,
    /// The competition already has the maximum number of participants.
    ParticipantCapReached,
    /// The protocol configuration already exists.
    ConfigAlreadyInitialized,
    /// The fee exceeds the protocol's hard ceiling.
    FeeTooHigh,
    /// The signer is not the configuration authority.
    NotConfigAuthority,
    /// An arithmetic operation overflowed.
    ArithmeticOverflow,
}

/// The custom error code of `e`.
pub open spec fn core_error_code(e: TycheCoreError) -> u32 {
    match e {
        TycheCoreError::InvalidAccountData => 0x2300,
        TycheCoreError::InvalidDiscriminator => 0x2301,
        TycheCoreError::InvalidPhase => 0x2302,
        TycheCoreError::NotAuthority => 0x2303,
        TycheCoreError::InvalidCrankAuthority => 0x2304,
        TycheCoreError::AuctionNotStarted => 0x2305,
        TycheCoreError::AuctionNotExpired => 0x2306,
        TycheCoreError::AuctionEnded => 0x2307,
        TycheCoreError::SoftCloseCapReached => 0x2308,
        TycheCoreError::SoftCloseNotArmed => 0x2309,
        TycheCoreError::HasParticipants => 0x230a,
        TycheCoreError::NotUndelegated => 0x230b,
        TycheCoreError::ParticipantCapReached => 0x230c,
        TycheCoreError::ConfigAlreadyInitialized => 0x230d,
        TycheCoreError::FeeTooHigh => 0x230e,
        TycheCoreError::NotConfigAuthority => 0x230f,
        TycheCoreError::ArithmeticOverflow => 0x2310,
    }
}

/// The runtime error that `e` is reported as.
pub open spec fn core_err(e: TycheCoreError) -> ProgramError {
    ProgramError::Custom(core_error_code(e))
}

impl TycheCoreError {
    /// The custom error code of this error.
    pub fn code(self) -> (c: u32)
        ensures
            c == core_error_code(self),
    {
        match self {
            TycheCoreError::InvalidAccountData => 0x2300,
            TycheCoreError::InvalidDiscriminator => 0x2301,
            TycheCoreError::InvalidPhase => 0x2302,
            TycheCoreError::NotAuthority => 0x2303,
            TycheCoreError::InvalidCrankAuthority => 0x2304,
            TycheCoreError::AuctionNotStarted => 0x2305,
            TycheCoreError::AuctionNotExpired => 0x2306,
            TycheCoreError::AuctionEnded => 0x2307,
            TycheCoreError::SoftCloseCapReached => 0x2308,
            TycheCoreError::SoftCloseNotArmed => 0x2309,
            TycheCoreError::HasParticipants => 0x230a,
            TycheCoreError::NotUndelegated => 0x230b,
            TycheCoreError::ParticipantCapReached => 0x230c,
            TycheCoreError::ConfigAlreadyInitialized => 0x230d,
            TycheCoreError::FeeTooHigh => 0x230e,
            TycheCoreError::NotConfigAuthority => 0x230f,
            TycheCoreError::ArithmeticOverflow => 0x2310,
        }
    }
}

impl From<TycheCoreError> for ProgramError {
    fn from(e: TycheCoreError) -> (r: ProgramError) {
        ProgramError::Custom(e.code())
    }
}

impl vstd::std_specs::convert::FromSpecImpl<TycheCoreError> for ProgramError {
    open spec fn obeys_from_spec() -> bool {
        true
    }

    open spec fn from_spec(e: TycheCoreError) -> ProgramError {
        core_err(e)
    }
}

/// The runtime error that `e` is reported as.
pub fn core_error(e: TycheCoreError) -> (r: ProgramError)
    ensures
        r == core_err(e),
{
    ProgramError::from(e)
}

} // verus!
