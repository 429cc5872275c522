//! Errors of the voter-weight plugin.

use vstd::prelude::*;
use crate::program::ProgramError;

verus! {

/// Errors returned by plugin instructions.
#[derive(Clone, Copy, Debug, PartialEq, Eq, Structural)]
pub enum PluginError {
    /// The vault's `competition` does not match the registrar's competition.
    WrongCompetition,
    /// The vault's `depositor` does not match the signing voter.
    WrongDepositor,
    /// The registrar account is not a `Registrar` (or already exists).
    InvalidRegistrar,
    /// The vault account data is too short to hold an `EscrowVault`.
    InvalidVaultData,
    /// The account discriminator does not match the expected value.
    InvalidDiscriminator,
}

/// The custom error code of `e`.
pub open spec fn plugin_error_code(e: PluginError) -> u32 {
    match e {
        PluginError::WrongCompetition => 0x3100,
        PluginError::WrongDepositor => 0x3101,
        PluginError::InvalidRegistrar => 0x3102,
        PluginError::InvalidVaultData => 0x3103,
        PluginError::InvalidDiscriminator => 0x3104,
    }
}

/// The runtime error that `e` is reported as.
pub open spec fn plugin_err(e: PluginError) -> ProgramError {
    ProgramError::Custom(plugin_error_code(e))
}

impl PluginError {
    /// The custom error code of this error.
    pub fn code(self) -> (c: u32)
        ensures
            c == plugin_error_code(self),
    {
        match self {
            PluginError::WrongCompetition => 0x3100,
            PluginError::WrongDepositor => 0x3101,
            PluginError::InvalidRegistrar => 0x3102,
            PluginError::InvalidVaultData => 0x3103,
            PluginError::InvalidDiscriminator => 0x3104,
        }
    }
}

impl From<PluginError> for ProgramError {
    fn from(e: PluginError) -> (r: ProgramError) {
        ProgramError::Custom(e.code())
    }
}

impl vstd::std_specs::convert::FromSpecImpl<PluginError> for ProgramError {
    open spec fn obeys_from_spec() -> bool {
        true
    }

    open spec fn from_spec(e: PluginError) -> ProgramError {
        plugin_err(e)
    }
}

/// The runtime error that `e` is reported as.
pub fn plugin_error(e: PluginError) -> (r: ProgramError)
    ensures
        r == plugin_err(e),
{
    ProgramError::from(e)
}

} // verus!
