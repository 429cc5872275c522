//! `UpdateCrankAuthority`: rotate the crank keypair.

use vstd::prelude::*;
use crate::competition::discriminator::PROTOCOL_CONFIG;
use crate::competition::error::{TycheCoreError, core_err, core_error};
use crate::competition::instruction_args::UpdateCrankAuthorityArgs;
use crate::competition::state::{
    CFG_AUTHORITY, CFG_CRANK_AUTHORITY, PROTOCOL_CONFIG_LEN, cfg_authority, cfg_discriminator,
};
use crate::layout::{bytes_equal_at, copy_bytes, put_bytes, write_bytes};
use crate::program::{AccountState, ProgramError};

verus! {

/// Validated accounts of `UpdateCrankAuthority`.
pub struct UpdateCrankAuthorityAccounts<'a> {
    /// The configuration (writable).
    pub protocol_config: &'a AccountState,
    /// Must sign and be the configuration authority.
    pub authority: &'a AccountState,
}

/// The error that the account checks of `UpdateCrankAuthority` and
/// `UpdateProtocolConfig` report, if any.
pub open spec fn config_update_accounts_error(a: Seq<AccountState>) -> Option<ProgramError> {
    if a.len() < 2 {
        Some(ProgramError::NotEnoughAccountKeys)
    } else if !a[0].is_writable {
        Some(ProgramError::InvalidAccountData)
    } else if !a[1].is_signer {
        Some(ProgramError::MissingRequiredSignature)
    } else {
        None
    }
}

impl<'a> UpdateCrankAuthorityAccounts<'a> {
    /// Takes the first two accounts and checks them.
    pub fn try_from(accounts: &'a [AccountState]) -> (r: Result<UpdateCrankAuthorityAccounts<'a>, ProgramError>)
        ensures
            match config_update_accounts_error(accounts@) {
                Some(e) => r matches Err(x) && x == e,
                None => r matches Ok(x) && *x.protocol_config == accounts@[0] && *x.authority == accounts@[1],
            },
    {
        if accounts.len() < 2 {
            return Err(ProgramError::NotEnoughAccountKeys);
        }
        let protocol_config = &accounts[0];
        let authority = &accounts[1];
        if !protocol_config.is_writable {
            return Err(ProgramError::InvalidAccountData);
        }
        if !authority.is_signer {
            return Err(ProgramError::MissingRequiredSignature);
        }
        Ok(UpdateCrankAuthorityAccounts { protocol_config, authority })
    }
}

/// Instruction context of `UpdateCrankAuthority`.
pub struct UpdateCrankAuthorityInstruction<'a> {
    pub accounts: UpdateCrankAuthorityAccounts<'a>,
    pub args: &'a UpdateCrankAuthorityArgs,
}

impl<'a> UpdateCrankAuthorityInstruction<'a> {
    /// Validates the accounts and binds the arguments.
    pub fn try_from(accounts: &'a [AccountState], args: &'a UpdateCrankAuthorityArgs) -> (r: Result<UpdateCrankAuthorityInstruction<'a>, ProgramError>)
        ensures
            match config_update_accounts_error(accounts@) {
                Some(e) => r matches Err(x) && x == e,
                None => r matches Ok(ix) && *ix.accounts.protocol_config == accounts@[0]
                    && *ix.accounts.authority == accounts@[1] && *ix.args == *args,
            },
    {
        let accounts = UpdateCrankAuthorityAccounts::try_from(accounts)?;
        Ok(UpdateCrankAuthorityInstruction { accounts, args })
    }
}

/// The error that changing the configuration `cfg` as `authority` reports, if any.
pub open spec fn config_authority_error(cfg: Seq<u8>, authority: Seq<u8>) -> Option<ProgramError> {
    if cfg_discriminator(cfg) != PROTOCOL_CONFIG@ {
        Some(core_err(TycheCoreError::InvalidDiscriminator))
    } else if authority != cfg_authority(cfg) {
        Some(core_err(TycheCoreError::NotConfigAuthority))
    } else {
        None
    }
}

impl<'a> UpdateCrankAuthorityInstruction<'a> {
    /// Checks the rotation and gives the new configuration data.
    pub fn handler(&self) -> (r: Result<Vec<u8>, ProgramError>)
        requires
            self.accounts.protocol_config.data@.len() == PROTOCOL_CONFIG_LEN,
        ensures
            match config_authority_error(self.accounts.protocol_config.data@, self.accounts.authority.address@) {
                Some(e) => r matches Err(x) && x == e,
                None => r matches Ok(v) && v@ == put_bytes(
                    self.accounts.protocol_config.data@,
                    CFG_CRANK_AUTHORITY as int,
                    self.args.new_crank_authority@,
                ),
            },
    {
        let cfg = self.accounts.protocol_config.data.as_slice();
        if !bytes_equal_at(cfg, 0, &PROTOCOL_CONFIG) {
            return Err(core_error(TycheCoreError::InvalidDiscriminator));
        }
        if !bytes_equal_at(cfg, CFG_AUTHORITY, &self.accounts.authority.address) {
            return Err(core_error(TycheCoreError::NotConfigAuthority));
        }
        let mut v = copy_bytes(cfg);
        write_bytes(v.as_mut_slice(), CFG_CRANK_AUTHORITY, &self.args.new_crank_authority);
        Ok(v)
    }
}

} // verus!
