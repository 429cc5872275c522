//! `UpdateProtocolConfig`: change the treasury, fee and floors.

use vstd::prelude::*;
use crate::common::MAX_FEE_BASIS_POINTS;
use crate::competition::discriminator::PROTOCOL_CONFIG;
use crate::competition::error::{TycheCoreError, core_err, core_error};
use crate::competition::instruction_args::UpdateProtocolConfigArgs;
use crate::competition::processor::update_crank_authority::{
    config_authority_error, config_update_accounts_error,
};
use crate::competition::state::{
    CFG_AUTHORITY, CFG_FEE_BASIS_POINTS, CFG_MAX_SOFT_CLOSES_CAP, CFG_MIN_DURATION_SECS,
    CFG_MIN_RESERVE_PRICE, CFG_TREASURY, PROTOCOL_CONFIG_LEN,
};
use crate::layout::{
    bytes_equal_at, copy_bytes, put_bytes, put_i64, put_u16, put_u64, put_u8, write_bytes,
    write_i64, write_u16, write_u64, write_u8,
};
use crate::program::{AccountState, ProgramError};

verus! {

/// Validated accounts of `UpdateProtocolConfig`.
pub struct UpdateProtocolConfigAccounts<'a> {
    /// The configuration (writable).
    pub protocol_config: &'a AccountState,
    /// Must sign and be the configuration authority.
    pub authority: &'a AccountState,
}

impl<'a> UpdateProtocolConfigAccounts<'a> {
    /// Takes the first two accounts and checks them.
    pub fn try_from(accounts: &'a [AccountState]) -> (r: Result<UpdateProtocolConfigAccounts<'a>, ProgramError>)
        ensures
            match config_update_accounts_error(accounts@) {
                Some(e) => r matches Err(x) && x == e,
                None => r matches Ok(x) && *x.protocol_config == accounts@[0] && *x.authority == accounts@[1],
            },
    {
        if accounts.len() < 2 {
            return Err(ProgramError::NotEnoughAccountKeys);
        }
        let protocol_config = &accounts[0];
        let authority = &accounts[1];
        if !protocol_config.is_writable {
            return Err(ProgramError::InvalidAccountData);
        }
        if !authority.is_signer {
            return Err(ProgramError::MissingRequiredSignature);
        }
        Ok(UpdateProtocolConfigAccounts { protocol_config, authority })
    }
}

/// Instruction context of `UpdateProtocolConfig`.
pub struct UpdateProtocolConfigInstruction<'a> {
    pub accounts: UpdateProtocolConfigAccounts<'a>,
    pub args: &'a UpdateProtocolConfigArgs,
}

impl<'a> UpdateProtocolConfigInstruction<'a> {
    /// Validates the accounts and binds the arguments.
    pub fn try_from(accounts: &'a [AccountState], args: &'a UpdateProtocolConfigArgs) -> (r: Result<UpdateProtocolConfigInstruction<'a>, ProgramError>)
        ensures
            match config_update_accounts_error(accounts@) {
                Some(e) => r matches Err(x) && x == e,
                None => r matches Ok(ix) && *ix.accounts.protocol_config == accounts@[0]
                    && *ix.accounts.authority == accounts@[1] && *ix.args == *args,
            },
    {
        let accounts = UpdateProtocolConfigAccounts::try_from(accounts)?;
        Ok(UpdateProtocolConfigInstruction { accounts, args })
    }
}

/// The error that `UpdateProtocolConfig` reports, if any: the fee ceiling is
/// checked first, then the configuration and its authority.
pub open spec fn update_config_error(cfg: Seq<u8>, authority: Seq<u8>, args: UpdateProtocolConfigArgs) -> Option<ProgramError> {
    if args.new_fee_basis_points > MAX_FEE_BASIS_POINTS {
        Some(core_err(TycheCoreError::FeeTooHigh))
    } else {
        config_authority_error(cfg, authority)
    }
}

/// The configuration data after the update.
pub open spec fn updated_config_bytes(cfg: Seq<u8>, args: UpdateProtocolConfigArgs) -> Seq<u8> {
    let d1 = put_bytes(cfg, CFG_TREASURY as int, args.new_treasury@);
    let d2 = put_u16(d1, CFG_FEE_BASIS_POINTS as int, args.new_fee_basis_points);
    let d3 = put_u8(d2, CFG_MAX_SOFT_CLOSES_CAP as int, args.new_max_soft_closes_cap);
    let d4 = put_u64(d3, CFG_MIN_RESERVE_PRICE as int, args.new_min_reserve_price);
    put_i64(d4, CFG_MIN_DURATION_SECS as int, args.new_min_duration_secs)
}

impl<'a> UpdateProtocolConfigInstruction<'a> {
    /// Checks the update and gives the new configuration data.
    pub fn handler(&self) -> (r: Result<Vec<u8>, ProgramError>)
        requires
            self.args.new_fee_basis_points <= MAX_FEE_BASIS_POINTS
                ==> self.accounts.protocol_config.data@.len() == PROTOCOL_CONFIG_LEN,
        ensures
            match update_config_error(self.accounts.protocol_config.data@, self.accounts.authority.address@, *self.args) {
                Some(e) => r matches Err(x) && x == e,
                None => r matches Ok(v) && v@ == updated_config_bytes(self.accounts.protocol_config.data@, *self.args),
            },
    {
        let args = self.args;
        if args.new_fee_basis_points > MAX_FEE_BASIS_POINTS {
            return Err(core_error(TycheCoreError::FeeTooHigh));
        }
        let cfg = self.accounts.protocol_config.data.as_slice();
        if !bytes_equal_at(cfg, 0, &PROTOCOL_CONFIG) {
            return Err(core_error(TycheCoreError::InvalidDiscriminator));
        }
        if !bytes_equal_at(cfg, CFG_AUTHORITY, &self.accounts.authority.address) {
            return Err(core_error(TycheCoreError::NotConfigAuthority));
        }
        let mut v = copy_bytes(cfg);
        write_bytes(v.as_mut_slice(), CFG_TREASURY, &args.new_treasury);
        write_u16(v.as_mut_slice(), CFG_FEE_BASIS_POINTS, args.new_fee_basis_points);
        write_u8(v.as_mut_slice(), CFG_MAX_SOFT_CLOSES_CAP, args.new_max_soft_closes_cap);
        write_u64(v.as_mut_slice(), CFG_MIN_RESERVE_PRICE, args.new_min_reserve_price);
        write_i64(v.as_mut_slice(), CFG_MIN_DURATION_SECS, args.new_min_duration_secs);
        Ok(v)
    }
}

} // verus!
