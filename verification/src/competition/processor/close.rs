//! `CloseCompetition`: end an expired competition and pull it back from the
//! rollup for settlement.

use vstd::prelude::*;
use crate::common::{PHASE_ACTIVE, PHASE_SETTLING};
use crate::competition::discriminator::{COMPETITION_STATE, PROTOCOL_CONFIG};
use crate::competition::error::{TycheCoreError, core_err, core_error};
use crate::competition::state::{
    CFG_CRANK_AUTHORITY, COMPETITION_STATE_LEN, COMP_END_TIME, COMP_PHASE, PROTOCOL_CONFIG_LEN,
    cfg_crank_authority, cfg_discriminator, comp_discriminator, comp_end_time, comp_phase,
};
use crate::layout::{bytes_equal_at, copy_bytes, put_u8, read_i64, read_u8, write_u8};
use crate::program::{AccountState, Clock, ProgramError};

verus! {

/// The error that reading the protocol configuration reports, if any.
pub open spec fn config_error(cfg: Seq<u8>) -> Option<ProgramError> {
    if cfg.len() != PROTOCOL_CONFIG_LEN {
        Some(ProgramError::InvalidAccountData)
    } else if cfg_discriminator(cfg) != PROTOCOL_CONFIG@ {
        Some(core_err(TycheCoreError::InvalidDiscriminator))
    } else {
        None
    }
}

/// Reads the configured crank authority.
pub fn read_crank_authority(cfg: &[u8]) -> (r: Result<[u8; 32], ProgramError>)
    ensures
        match config_error(cfg@) {
            Some(e) => r matches Err(x) && x == e,
            None => r matches Ok(c) && c@ == cfg_crank_authority(cfg@),
        },
{
    if cfg.len() != PROTOCOL_CONFIG_LEN {
        return Err(ProgramError::InvalidAccountData);
    }
    if !bytes_equal_at(cfg, 0, &PROTOCOL_CONFIG) {
        return Err(core_error(TycheCoreError::InvalidDiscriminator));
    }
    Ok(crate::layout::read_address(cfg, CFG_CRANK_AUTHORITY))
}

/// Validated accounts of `CloseCompetition`.
pub struct CloseCompetitionAccounts<'a> {
    pub competition: &'a AccountState,
    /// The protocol crank: must sign.
    pub crank: &'a AccountState,
    pub permission: &'a AccountState,
    pub magic_context: &'a AccountState,
    pub magic_program: &'a AccountState,
    pub protocol_config: &'a AccountState,
}

/// The error that the account checks of `CloseCompetition` report, if any.
pub open spec fn close_accounts_error(a: Seq<AccountState>) -> Option<ProgramError> {
    if a.len() < 6 {
        Some(ProgramError::NotEnoughAccountKeys)
    } else if !a[0].is_writable {
        Some(ProgramError::InvalidAccountData)
    } else if !a[1].is_signer {
        Some(ProgramError::MissingRequiredSignature)
    } else {
        None
    }
}

impl<'a> CloseCompetitionAccounts<'a> {
    /// Takes the first six accounts and checks them.
    pub fn try_from(accounts: &'a [AccountState]) -> (r: Result<CloseCompetitionAccounts<'a>, ProgramError>)
        ensures
            match close_accounts_error(accounts@) {
                Some(e) => r matches Err(x) && x == e,
                None => r matches Ok(x) && {
                    &&& *x.competition == accounts@[0]
                    &&& *x.crank == accounts@[1]
                    &&& *x.permission == accounts@[2]
                    &&& *x.magic_context == accounts@[3]
                    &&& *x.magic_program == accounts@[4]
                    &&& *x.protocol_config == accounts@[5]
                },
            },
    {
        if accounts.len() < 6 {
            return Err(ProgramError::NotEnoughAccountKeys);
        }
        let competition = &accounts[0];
        let crank = &accounts[1];
        if !competition.is_writable {
            return Err(ProgramError::InvalidAccountData);
        }
        if !crank.is_signer {
            return Err(ProgramError::MissingRequiredSignature);
        }
        Ok(CloseCompetitionAccounts {
            competition,
            crank,
            permission: &accounts[2],
            magic_context: &accounts[3],
            magic_program: &accounts[4],
            protocol_config: &accounts[5],
        })
    }
}

/// Instruction context of `CloseCompetition` (no arguments).
pub struct CloseCompetitionInstruction<'a> {
    pub accounts: CloseCompetitionAccounts<'a>,
}

impl<'a> CloseCompetitionInstruction<'a> {
    /// Validates the accounts; the instruction data is not read.
    pub fn try_from(accounts: &'a [AccountState], data: &[u8]) -> (r: Result<CloseCompetitionInstruction<'a>, ProgramError>)
        ensures
            match close_accounts_error(accounts@) {
                Some(e) => r matches Err(x) && x == e,
                None => r matches Ok(ix) && {
                    &&& *ix.accounts.competition == accounts@[0]
                    &&& *ix.accounts.crank == accounts@[1]
                    &&& *ix.accounts.protocol_config == accounts@[5]
                },
            },
    {
        let accounts = CloseCompetitionAccounts::try_from(accounts)?;
        Ok(CloseCompetitionInstruction { accounts })
    }
}

/// The error that `CloseCompetition` reports, if any: only the crank may
/// close an Active competition, and only once its window has ended.
pub open spec fn close_error(d: Seq<u8>, cfg: Seq<u8>, crank: Seq<u8>, now: i64) -> Option<ProgramError> {
    if config_error(cfg) is Some {
        config_error(cfg)
    } else if comp_discriminator(d) != COMPETITION_STATE@ {
        Some(core_err(TycheCoreError::InvalidDiscriminator))
    } else if comp_phase(d) != PHASE_ACTIVE {
        Some(core_err(TycheCoreError::InvalidPhase))
    } else if crank != cfg_crank_authority(cfg) {
        Some(core_err(TycheCoreError::InvalidCrankAuthority))
    } else if now < comp_end_time(d) {
        Some(core_err(TycheCoreError::AuctionNotExpired))
    } else {
        None
    }
}

/// What a `CloseCompetition` that passed its checks does: store
/// `competition_data` (phase Settling), then commit and undelegate the
/// competition and its permission account.
pub struct CloseCompetitionOutcome {
    pub competition_data: Vec<u8>,
}

impl<'a> CloseCompetitionInstruction<'a> {
    /// Checks the closing and describes it.
    pub fn handler(&self, clock: &Clock) -> (r: Result<CloseCompetitionOutcome, ProgramError>)
        requires
            config_error(self.accounts.protocol_config.data@) is None
                ==> self.accounts.competition.data@.len() == COMPETITION_STATE_LEN,
        ensures
            match close_error(
                self.accounts.competition.data@,
                self.accounts.protocol_config.data@,
                self.accounts.crank.address@,
                clock.unix_timestamp,
            ) {
                Some(e) => r matches Err(x) && x == e,
                None => r matches Ok(o) && o.competition_data@ == put_u8(
                    self.accounts.competition.data@,
                    COMP_PHASE as int,
                    PHASE_SETTLING,
                ),
            },
    {
        let crank_authority = read_crank_authority(self.accounts.protocol_config.data.as_slice())?;
        let d = self.accounts.competition.data.as_slice();
        if !bytes_equal_at(d, 0, &COMPETITION_STATE) {
            return Err(core_error(TycheCoreError::InvalidDiscriminator));
        }
        if read_u8(d, COMP_PHASE) != PHASE_ACTIVE {
            return Err(core_error(TycheCoreError::InvalidPhase));
        }
        if !crate::layout::address_eq(&self.accounts.crank.address, &crank_authority) {
            return Err(core_error(TycheCoreError::InvalidCrankAuthority));
        }
        if clock.unix_timestamp < read_i64(d, COMP_END_TIME) {
            return Err(core_error(TycheCoreError::AuctionNotExpired));
        }
        let mut data = copy_bytes(d);
        write_u8(data.as_mut_slice(), COMP_PHASE, PHASE_SETTLING);
        Ok(CloseCompetitionOutcome { competition_data: data })
    }
}

} // verus!
