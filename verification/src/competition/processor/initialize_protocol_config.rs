//! `InitializeProtocolConfig`: create the singleton protocol configuration.

use vstd::prelude::*;
use crate::common::{MAX_FEE_BASIS_POINTS, PROTOCOL_CONFIG_SEED};
use crate::competition::discriminator::PROTOCOL_CONFIG;
use crate::competition::error::{TycheCoreError, core_err, core_error};
use crate::competition::instruction_args::InitializeProtocolConfigArgs;
use crate::competition::state::{
    CFG_AUTHORITY, CFG_BUMP, CFG_CRANK_AUTHORITY, CFG_EMERGENCY_AUTHORITY, CFG_FEE_BASIS_POINTS,
    CFG_MAX_SOFT_CLOSES_CAP, CFG_MIN_DURATION_SECS, CFG_MIN_RESERVE_PRICE, CFG_TREASURY,
    PROTOCOL_CONFIG_LEN,
};
use crate::layout::{
    copy_bytes, put_bytes, put_i64, put_u16, put_u64, put_u8, write_bytes, write_i64, write_u16,
    write_u64, write_u8, zero_bytes, zeros,
};
use crate::program::{
    AccountState, CreateAccountCpi, ProgramError, check_pda, is_pda, pda_bump, seeds_view,
    with_bump,
};

verus! {

/// Validated accounts of `InitializeProtocolConfig`.
pub struct InitializeProtocolConfigAccounts<'a> {
    /// The configuration PDA (writable).
    pub protocol_config: &'a AccountState,
    /// Must sign.
    pub authority: &'a AccountState,
    /// Funds the rent (signer, writable).
    pub payer: &'a AccountState,
    pub system_program: &'a AccountState,
}

/// The error that the account checks of `InitializeProtocolConfig` report, if any.
pub open spec fn init_config_accounts_error(a: Seq<AccountState>) -> Option<ProgramError> {
    if a.len() < 4 {
        Some(ProgramError::NotEnoughAccountKeys)
    } else if !a[0].is_writable {
        Some(ProgramError::InvalidAccountData)
    } else if !a[1].is_signer {
        Some(ProgramError::MissingRequiredSignature)
    } else if !a[2].is_signer || !a[2].is_writable {
        Some(ProgramError::MissingRequiredSignature)
    } else {
        None
    }
}

impl<'a> InitializeProtocolConfigAccounts<'a> {
    /// Takes the first four accounts and checks them.
    pub fn try_from(accounts: &'a [AccountState]) -> (r: Result<InitializeProtocolConfigAccounts<'a>, ProgramError>)
        ensures
            match init_config_accounts_error(accounts@) {
                Some(e) => r matches Err(x) && x == e,
                None => r matches Ok(x) && {
                    &&& *x.protocol_config == accounts@[0]
                    &&& *x.authority == accounts@[1]
                    &&& *x.payer == accounts@[2]
                    &&& *x.system_program == accounts@[3]
                },
            },
    {
        if accounts.len() < 4 {
            return Err(ProgramError::NotEnoughAccountKeys);
        }
        let protocol_config = &accounts[0];
        let authority = &accounts[1];
        let payer = &accounts[2];
        let system_program = &accounts[3];
        if !protocol_config.is_writable {
            return Err(ProgramError::InvalidAccountData);
        }
        if !authority.is_signer {
            return Err(ProgramError::MissingRequiredSignature);
        }
        if !payer.is_signer || !payer.is_writable {
            return Err(ProgramError::MissingRequiredSignature);
        }
        Ok(InitializeProtocolConfigAccounts { protocol_config, authority, payer, system_program })
    }
}

/// Instruction context of `InitializeProtocolConfig`.
pub struct InitializeProtocolConfigInstruction<'a> {
    pub accounts: InitializeProtocolConfigAccounts<'a>,
    pub args: &'a InitializeProtocolConfigArgs,
}

impl<'a> InitializeProtocolConfigInstruction<'a> {
    /// Validates the accounts and binds the arguments.
    pub fn try_from(accounts: &'a [AccountState], args: &'a InitializeProtocolConfigArgs) -> (r: Result<InitializeProtocolConfigInstruction<'a>, ProgramError>)
        ensures
            match init_config_accounts_error(accounts@) {
                Some(e) => r matches Err(x) && x == e,
                None => r matches Ok(ix) && {
                    &&& *ix.accounts.protocol_config == accounts@[0]
                    &&& *ix.accounts.authority == accounts@[1]
                    &&& *ix.accounts.payer == accounts@[2]
                    &&& *ix.args == *args
                },
            },
    {
        let accounts = InitializeProtocolConfigAccounts::try_from(accounts)?;
        Ok(InitializeProtocolConfigInstruction { accounts, args })
    }
}

/// The seeds of the protocol configuration.
pub open spec fn config_seeds() -> Seq<Seq<u8>> {
    seq![PROTOCOL_CONFIG_SEED@]
}

/// The error that `InitializeProtocolConfig` reports, if any: the
/// configuration is created once, at its PDA, with a fee within the ceiling.
pub open spec fn init_config_error(
    config: Seq<u8>,
    config_data: Seq<u8>,
    args: InitializeProtocolConfigArgs,
    program_id: Seq<u8>,
) -> Option<ProgramError> {
    if config_data.len() != 0 {
        Some(core_err(TycheCoreError::ConfigAlreadyInitialized))
    } else if args.fee_basis_points > MAX_FEE_BASIS_POINTS {
        Some(core_err(TycheCoreError::FeeTooHigh))
    } else if !is_pda(config_seeds(), program_id, config) {
        Some(ProgramError::InvalidSeeds)
    } else {
        None
    }
}

/// The data of a new protocol configuration.
pub open spec fn new_config_bytes(args: InitializeProtocolConfigArgs, bump: u8) -> Seq<u8> {
    let d0 = zeros(PROTOCOL_CONFIG_LEN as nat);
    let d1 = put_bytes(d0, 0, PROTOCOL_CONFIG@);
    let d2 = put_bytes(d1, CFG_AUTHORITY as int, args.authority@);
    let d3 = put_bytes(d2, CFG_EMERGENCY_AUTHORITY as int, args.emergency_authority@);
    let d4 = put_bytes(d3, CFG_TREASURY as int, args.treasury@);
    let d5 = put_bytes(d4, CFG_CRANK_AUTHORITY as int, args.crank_authority@);
    let d6 = put_u16(d5, CFG_FEE_BASIS_POINTS as int, args.fee_basis_points);
    let d7 = put_u8(d6, CFG_MAX_SOFT_CLOSES_CAP as int, args.max_soft_closes_cap);
    let d8 = put_u64(d7, CFG_MIN_RESERVE_PRICE as int, args.min_reserve_price);
    let d9 = put_i64(d8, CFG_MIN_DURATION_SECS as int, args.min_duration_secs);
    put_u8(d9, CFG_BUMP as int, bump)
}

/// What an `InitializeProtocolConfig` that passed its checks does: create
/// the configuration account, then store `config_data` into it.
pub struct InitializeProtocolConfigOutcome {
    pub create: CreateAccountCpi,
    pub config_data: Vec<u8>,
}

impl<'a> InitializeProtocolConfigInstruction<'a> {
    /// Checks the initialization and describes it; `program_id` is the
    /// competition program.
    pub fn handler(&self, program_id: &[u8; 32]) -> (r: Result<InitializeProtocolConfigOutcome, ProgramError>)
        ensures
            match init_config_error(
                self.accounts.protocol_config.address@,
                self.accounts.protocol_config.data@,
                *self.args,
                program_id@,
            ) {
                Some(e) => r matches Err(x) && x == e,
                None => r matches Ok(o) && {
                    let bump = pda_bump(config_seeds(), program_id@);
                    &&& o.create.space == PROTOCOL_CONFIG_LEN
                    &&& o.create.owner@ == program_id@
                    &&& seeds_view(o.create.signer_seeds@) == config_seeds().push(seq![bump])
                    &&& o.config_data@ == new_config_bytes(*self.args, bump)
                },
            },
    {
        let accounts = &self.accounts;
        let args = self.args;
        if !accounts.protocol_config.is_data_empty() {
            return Err(core_error(TycheCoreError::ConfigAlreadyInitialized));
        }
        if args.fee_basis_points > MAX_FEE_BASIS_POINTS {
            return Err(core_error(TycheCoreError::FeeTooHigh));
        }
        let mut seeds: Vec<Vec<u8>> = Vec::new();
        seeds.push(copy_bytes(&PROTOCOL_CONFIG_SEED));
        assert(seeds_view(seeds@) =~= config_seeds());
        let bump = check_pda(&seeds, program_id, &accounts.protocol_config.address)?;
        let mut v = zero_bytes(PROTOCOL_CONFIG_LEN);
        write_bytes(v.as_mut_slice(), 0, &PROTOCOL_CONFIG);
        write_bytes(v.as_mut_slice(), CFG_AUTHORITY, &args.authority);
        write_bytes(v.as_mut_slice(), CFG_EMERGENCY_AUTHORITY, &args.emergency_authority);
        write_bytes(v.as_mut_slice(), CFG_TREASURY, &args.treasury);
        write_bytes(v.as_mut_slice(), CFG_CRANK_AUTHORITY, &args.crank_authority);
        write_u16(v.as_mut_slice(), CFG_FEE_BASIS_POINTS, args.fee_basis_points);
        write_u8(v.as_mut_slice(), CFG_MAX_SOFT_CLOSES_CAP, args.max_soft_closes_cap);
        write_u64(v.as_mut_slice(), CFG_MIN_RESERVE_PRICE, args.min_reserve_price);
        write_i64(v.as_mut_slice(), CFG_MIN_DURATION_SECS, args.min_duration_secs);
        write_u8(v.as_mut_slice(), CFG_BUMP, bump);
        Ok(InitializeProtocolConfigOutcome {
            create: CreateAccountCpi {
                space: PROTOCOL_CONFIG_LEN as u64,
                owner: *program_id,
                signer_seeds: with_bump(seeds, bump),
            },
            config_data: v,
        })
    }
}

} // verus!
