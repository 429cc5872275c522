//! Errors of the escrow program.

use vstd::prelude::*;
use crate::program::ProgramError;

verus! {

/// Errors returned by escrow instructions.
#[derive(Clone, Copy, Debug, PartialEq, Eq, Structural)]
pub enum TycheEscrowError {
    /// The competition or vault is not in the phase required by this instruction.
    InvalidPhase,
    /// The signer is not the authorized crank account.
    InvalidCrankAuthority,
    /// The account discriminator does not match the expected value.
    InvalidDiscriminator,
    /// An arithmetic operation overflowed or underflowed.
    ArithmeticOverflow,
    /// `Release` was called but the depositor is not the competition winner.
    NotWinner,
    /// `Refund` was called but the depositor won the competition.
    WinnerCannotRefund,
    /// `Deposit` was called with a zero amount, or the vault holds none.
    InvalidAmount,
    /// The `treasury` account does not match `ProtocolConfig::treasury`.
    InvalidTreasury,
    /// The `protocol_config` account is not a `ProtocolConfig`.
    InvalidProtocolConfig,
}

/// The custom error code of `e`.
pub open spec fn escrow_error_code(e: TycheEscrowError) -> u32 {
    match e {
        TycheEscrowError::InvalidPhase => 0x2400,
        TycheEscrowError::InvalidCrankAuthority => 0x2401,
        TycheEscrowError::InvalidDiscriminator => 0x2402,
        TycheEscrowError::ArithmeticOverflow => 0x2403,
        TycheEscrowError::NotWinner => 0x2404,
        TycheEscrowError::WinnerCannotRefund => 0x2405,
        TycheEscrowError::InvalidAmount => 0x2406,
        TycheEscrowError::InvalidTreasury => 0x2407,
        TycheEscrowError::InvalidProtocolConfig => 0x2408,
    }
}

/// The runtime error that `e` is reported as.
pub open spec fn escrow_err(e: TycheEscrowError) -> ProgramError {
    ProgramError::Custom(escrow_error_code(e))
}

impl TycheEscrowError {
    /// The custom error code of this error.
    pub fn code(self) -> (c: u32)
        ensures
            c == escrow_error_code(self),
    {
        match self {
            TycheEscrowError::InvalidPhase => 0x2400,
            TycheEscrowError::InvalidCrankAuthority => 0x2401,
            TycheEscrowError::InvalidDiscriminator => 0x2402,
            TycheEscrowError::ArithmeticOverflow => 0x2403,
            TycheEscrowError::NotWinner => 0x2404,
            TycheEscrowError::WinnerCannotRefund => 0x2405,
            TycheEscrowError::InvalidAmount => 0x2406,
            TycheEscrowError::InvalidTreasury => 0x2407,
            TycheEscrowError::InvalidProtocolConfig => 0x2408,
        }
    }
}

impl From<TycheEscrowError> for ProgramError {
    fn from(e: TycheEscrowError) -> (r: ProgramError) {
        ProgramError::Custom(e.code())
    }
}

impl vstd::std_specs::convert::FromSpecImpl<TycheEscrowError> for ProgramError {
    open spec fn obeys_from_spec() -> bool {
        true
    }

    open spec fn from_spec(e: TycheEscrowError) -> ProgramError {
        escrow_err(e)
    }
}

/// The runtime error that `e` is reported as.
pub fn escrow_error(e: TycheEscrowError) -> (r: ProgramError)
    ensures
        r == escrow_err(e),
{
    ProgramError::from(e)
}

} // verus!
