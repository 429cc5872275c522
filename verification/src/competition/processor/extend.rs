//! `ExtendCompetition`: a soft close pushes the end of the bidding window.

use vstd::prelude::*;
use crate::common::PHASE_ACTIVE;
use crate::competition::discriminator::COMPETITION_STATE;
use crate::competition::error::{TycheCoreError, core_err, core_error};
use crate::competition::processor::close::{config_error, read_crank_authority};
use crate::competition::state::{
    COMPETITION_STATE_LEN, COMP_END_TIME, COMP_MAX_SOFT_CLOSES, COMP_PHASE,
    COMP_SOFT_CLOSE_COUNT, COMP_SOFT_CLOSE_EXTENSION, COMP_SOFT_CLOSE_WINDOW,
    cfg_crank_authority, comp_discriminator, comp_end_time, comp_max_soft_closes, comp_phase,
    comp_soft_close_count, comp_soft_close_extension, comp_soft_close_window,
};
use crate::layout::{
    address_eq, bytes_equal_at, copy_bytes, put_i64, put_u8, read_i64, read_u8, write_i64,
    write_u8,
};
use crate::program::{AccountState, Clock, ProgramError};

verus! {

/// Validated accounts of `ExtendCompetition`.
pub struct ExtendCompetitionAccounts<'a> {
    pub competition: &'a AccountState,
    /// The protocol crank: must sign.
    pub crank: &'a AccountState,
    pub magic_context: &'a AccountState,
    pub magic_program: &'a AccountState,
    pub protocol_config: &'a AccountState,
}

/// The error that the account checks of `ExtendCompetition` report, if any.
pub open spec fn extend_accounts_error(a: Seq<AccountState>) -> Option<ProgramError> {
    if a.len() < 5 {
        Some(ProgramError::NotEnoughAccountKeys)
    } else if !a[0].is_writable {
        Some(ProgramError::InvalidAccountData)
    } else if !a[1].is_signer {
        Some(ProgramError::MissingRequiredSignature)
    } else {
        None
    }
}

impl<'a> ExtendCompetitionAccounts<'a> {
    /// Takes the first five accounts and checks them.
    pub fn try_from(accounts: &'a [AccountState]) -> (r: Result<ExtendCompetitionAccounts<'a>, ProgramError>)
        ensures
            match extend_accounts_error(accounts@) {
                Some(e) => r matches Err(x) && x == e,
                None => r matches Ok(x) && {
                    &&& *x.competition == accounts@[0]
                    &&& *x.crank == accounts@[1]
                    &&& *x.magic_context == accounts@[2]
                    &&& *x.magic_program == accounts@[3]
                    &&& *x.protocol_config == accounts@[4]
                },
            },
    {
        if accounts.len() < 5 {
            return Err(ProgramError::NotEnoughAccountKeys);
        }
        let competition = &accounts[0];
        let crank = &accounts[1];
        if !competition.is_writable {
            return Err(ProgramError::InvalidAccountData);
        }
        if !crank.is_signer {
            return Err(ProgramError::MissingRequiredSignature);
        }
        Ok(ExtendCompetitionAccounts {
            competition,
            crank,
            magic_context: &accounts[2],
            magic_program: &accounts[3],
            protocol_config: &accounts[4],
        })
    }
}

/// Instruction context of `ExtendCompetition` (no arguments).
pub struct ExtendCompetitionInstruction<'a> {
    pub accounts: ExtendCompetitionAccounts<'a>,
}

impl<'a> ExtendCompetitionInstruction<'a> {
    /// Validates the accounts; the instruction data is not read.
    pub fn try_from(accounts: &'a [AccountState], data: &[u8]) -> (r: Result<ExtendCompetitionInstruction<'a>, ProgramError>)
        ensures
            match extend_accounts_error(accounts@) {
                Some(e) => r matches Err(x) && x == e,
                None => r matches Ok(ix) && {
                    &&& *ix.accounts.competition == accounts@[0]
                    &&& *ix.accounts.crank == accounts@[1]
                    &&& *ix.accounts.protocol_config == accounts@[4]
                },
            },
    {
        let accounts = ExtendCompetitionAccounts::try_from(accounts)?;
        Ok(ExtendCompetitionInstruction { accounts })
    }
}

/// The error that `ExtendCompetition` reports, if any: the crank may extend
/// an Active competition below its soft-close cap, at a time inside the
/// soft-close window `[end_time - soft_close_window, end_time)`.
pub open spec fn extend_error(d: Seq<u8>, cfg: Seq<u8>, crank: Seq<u8>, now: i64) -> Option<ProgramError> {
    let end = comp_end_time(d);
    if config_error(cfg) is Some {
        config_error(cfg)
    } else if comp_discriminator(d) != COMPETITION_STATE@ {
        Some(core_err(TycheCoreError::InvalidDiscriminator))
    } else if comp_phase(d) != PHASE_ACTIVE {
        Some(core_err(TycheCoreError::InvalidPhase))
    } else if crank != cfg_crank_authority(cfg) {
        Some(core_err(TycheCoreError::InvalidCrankAuthority))
    } else if comp_soft_close_count(d) >= comp_max_soft_closes(d) {
        Some(core_err(TycheCoreError::SoftCloseCapReached))
    } else if now >= end {
        Some(core_err(TycheCoreError::AuctionEnded))
    } else if end - comp_soft_close_window(d) < i64::MIN || end - comp_soft_close_window(d) > i64::MAX {
        Some(core_err(TycheCoreError::ArithmeticOverflow))
    } else if now < end - comp_soft_close_window(d) {
        Some(core_err(TycheCoreError::SoftCloseNotArmed))
    } else if end + comp_soft_close_extension(d) < i64::MIN || end + comp_soft_close_extension(d) > i64::MAX {
        Some(core_err(TycheCoreError::ArithmeticOverflow))
    } else {
        None
    }
}

/// The competition data after one soft close: the end moves by
/// `soft_close_extension` and the soft-close counter goes up by one.
pub open spec fn extended_bytes(d: Seq<u8>) -> Seq<u8> {
    put_u8(
        put_i64(d, COMP_END_TIME as int, (comp_end_time(d) + comp_soft_close_extension(d)) as i64),
        COMP_SOFT_CLOSE_COUNT as int,
        (comp_soft_close_count(d) + 1) as u8,
    )
}

/// What an `ExtendCompetition` that passed its checks does: store
/// `competition_data`, then commit the competition from the rollup.
pub struct ExtendCompetitionOutcome {
    pub competition_data: Vec<u8>,
}

impl<'a> ExtendCompetitionInstruction<'a> {
    /// Checks the soft close and describes it.
    pub fn handler(&self, clock: &Clock) -> (r: Result<ExtendCompetitionOutcome, ProgramError>)
        requires
            config_error(self.accounts.protocol_config.data@) is None
                ==> self.accounts.competition.data@.len() == COMPETITION_STATE_LEN,
        ensures
            match extend_error(
                self.accounts.competition.data@,
                self.accounts.protocol_config.data@,
                self.accounts.crank.address@,
                clock.unix_timestamp,
            ) {
                Some(e) => r matches Err(x) && x == e,
                None => r matches Ok(o) && o.competition_data@ == extended_bytes(self.accounts.competition.data@),
            },
    {
        let crank_authority = read_crank_authority(self.accounts.protocol_config.data.as_slice())?;
        let d = self.accounts.competition.data.as_slice();
        if !bytes_equal_at(d, 0, &COMPETITION_STATE) {
            return Err(core_error(TycheCoreError::InvalidDiscriminator));
        }
        if read_u8(d, COMP_PHASE) != PHASE_ACTIVE {
            return Err(core_error(TycheCoreError::InvalidPhase));
        }
        if !address_eq(&self.accounts.crank.address, &crank_authority) {
            return Err(core_error(TycheCoreError::InvalidCrankAuthority));
        }
        let count = read_u8(d, COMP_SOFT_CLOSE_COUNT);
        if count >= read_u8(d, COMP_MAX_SOFT_CLOSES) {
            return Err(core_error(TycheCoreError::SoftCloseCapReached));
        }
        let now = clock.unix_timestamp;
        let end_time = read_i64(d, COMP_END_TIME);
        if now >= end_time {
            return Err(core_error(TycheCoreError::AuctionEnded));
        }
        let window_start = match end_time.checked_sub(read_i64(d, COMP_SOFT_CLOSE_WINDOW)) {
            Some(w) => w,
            None => return Err(core_error(TycheCoreError::ArithmeticOverflow)),
        };
        if now < window_start {
            return Err(core_error(TycheCoreError::SoftCloseNotArmed));
        }
        let new_end = match end_time.checked_add(read_i64(d, COMP_SOFT_CLOSE_EXTENSION)) {
            Some(e) => e,
            None => return Err(core_error(TycheCoreError::ArithmeticOverflow)),
        };
        let mut data = copy_bytes(d);
        write_i64(data.as_mut_slice(), COMP_END_TIME, new_end);
        write_u8(data.as_mut_slice(), COMP_SOFT_CLOSE_COUNT, count + 1);
        Ok(ExtendCompetitionOutcome { competition_data: data })
    }
}

} // verus!
