//! `CancelCompetition`: cancel a competition that has no bidders.

use vstd::prelude::*;
use crate::common::{PHASE_ACTIVE, PHASE_CANCELLED, PHASE_SCHEDULED};
use crate::competition::discriminator::COMPETITION_STATE;
use crate::competition::error::{TycheCoreError, core_err, core_error};
use crate::competition::state::{
    COMPETITION_STATE_LEN, COMP_AUTHORITY, COMP_PARTICIPANT_COUNT, COMP_PHASE, comp_authority,
    comp_discriminator, comp_participant_count, comp_phase,
};
use crate::layout::{bytes_equal_at, copy_bytes, put_u8, read_u32, read_u8, write_u8};
use crate::program::{AccountState, ProgramError};

verus! {

/// Validated accounts of `CancelCompetition`.
pub struct CancelCompetitionAccounts<'a> {
    /// The competition (writable).
    pub competition: &'a AccountState,
    /// The competition authority: must sign.
    pub authority: &'a AccountState,
    /// Permission account, undelegated together with the competition on the Active path.
    pub permission: &'a AccountState,
    pub magic_context: &'a AccountState,
    pub magic_program: &'a AccountState,
}

/// The error that the account checks of `CancelCompetition` report, if any.
pub open spec fn cancel_accounts_error(a: Seq<AccountState>) -> Option<ProgramError> {
    if a.len() < 5 {
        Some(ProgramError::NotEnoughAccountKeys)
    } else if !a[0].is_writable {
        Some(ProgramError::InvalidAccountData)
    } else if !a[1].is_signer {
        Some(ProgramError::MissingRequiredSignature)
    } else {
        None
    }
}

impl<'a> CancelCompetitionAccounts<'a> {
    /// Takes the first five accounts and checks them.
    pub fn try_from(accounts: &'a [AccountState]) -> (r: Result<CancelCompetitionAccounts<'a>, ProgramError>)
        ensures
            match cancel_accounts_error(accounts@) {
                Some(e) => r matches Err(x) && x == e,
                None => r matches Ok(x) && {
                    &&& *x.competition == accounts@[0]
                    &&& *x.authority == accounts@[1]
                    &&& *x.permission == accounts@[2]
                    &&& *x.magic_context == accounts@[3]
                    &&& *x.magic_program == accounts@[4]
                },
            },
    {
        if accounts.len() < 5 {
            return Err(ProgramError::NotEnoughAccountKeys);
        }
        let competition = &accounts[0];
        let authority = &accounts[1];
        if !competition.is_writable {
            return Err(ProgramError::InvalidAccountData);
        }
        if !authority.is_signer {
            return Err(ProgramError::MissingRequiredSignature);
        }
        Ok(CancelCompetitionAccounts {
            competition,
            authority,
            permission: &accounts[2],
            magic_context: &accounts[3],
            magic_program: &accounts[4],
        })
    }
}

/// Instruction context of `CancelCompetition` (no arguments).
pub struct CancelCompetitionInstruction<'a> {
    pub accounts: CancelCompetitionAccounts<'a>,
}

impl<'a> CancelCompetitionInstruction<'a> {
    /// Validates the accounts; the instruction data is not read.
    pub fn try_from(accounts: &'a [AccountState], data: &[u8]) -> (r: Result<CancelCompetitionInstruction<'a>, ProgramError>)
        ensures
            match cancel_accounts_error(accounts@) {
                Some(e) => r matches Err(x) && x == e,
                None => r matches Ok(ix) && {
                    &&& *ix.accounts.competition == accounts@[0]
                    &&& *ix.accounts.authority == accounts@[1]
                    &&& *ix.accounts.permission == accounts@[2]
                },
            },
    {
        let accounts = CancelCompetitionAccounts::try_from(accounts)?;
        Ok(CancelCompetitionInstruction { accounts })
    }
}

/// The error that `CancelCompetition` reports for competition `d` and
/// signer `authority`, if any: only a Scheduled competition, or an Active
/// one without participants, can be cancelled, and only by its authority.
pub open spec fn cancel_error(d: Seq<u8>, authority: Seq<u8>) -> Option<ProgramError> {
    if comp_discriminator(d) != COMPETITION_STATE@ {
        Some(core_err(TycheCoreError::InvalidDiscriminator))
    } else if comp_phase(d) == PHASE_ACTIVE && comp_participant_count(d) > 0 {
        Some(core_err(TycheCoreError::HasParticipants))
    } else if comp_phase(d) != PHASE_SCHEDULED && comp_phase(d) != PHASE_ACTIVE {
        Some(core_err(TycheCoreError::InvalidPhase))
    } else if comp_authority(d) != authority {
        Some(core_err(TycheCoreError::NotAuthority))
    } else {
        None
    }
}

/// What a `CancelCompetition` that passed its checks does: store
/// `competition_data` (phase Cancelled), then, when `was_active`, commit and
/// undelegate the competition and its permission account.
pub struct CancelCompetitionOutcome {
    pub competition_data: Vec<u8>,
    pub was_active: bool,
}

impl<'a> CancelCompetitionInstruction<'a> {
    /// Checks the cancellation and describes it.
    pub fn handler(&self) -> (r: Result<CancelCompetitionOutcome, ProgramError>)
        requires
            self.accounts.competition.data@.len() == COMPETITION_STATE_LEN,
        ensures
            match cancel_error(self.accounts.competition.data@, self.accounts.authority.address@) {
                Some(e) => r matches Err(x) && x == e,
                None => r matches Ok(o) && {
                    &&& o.competition_data@ == put_u8(self.accounts.competition.data@, COMP_PHASE as int, PHASE_CANCELLED)
                    &&& o.was_active == (comp_phase(self.accounts.competition.data@) == PHASE_ACTIVE)
                },
            },
    {
        let d = self.accounts.competition.data.as_slice();
        if !bytes_equal_at(d, 0, &COMPETITION_STATE) {
            return Err(core_error(TycheCoreError::InvalidDiscriminator));
        }
        let phase = read_u8(d, COMP_PHASE);
        if phase == PHASE_SCHEDULED {
        } else if phase == PHASE_ACTIVE {
            if read_u32(d, COMP_PARTICIPANT_COUNT) > 0 {
                return Err(core_error(TycheCoreError::HasParticipants));
            }
        } else {
            return Err(core_error(TycheCoreError::InvalidPhase));
        }
        if !bytes_equal_at(d, COMP_AUTHORITY, &self.accounts.authority.address) {
            return Err(core_error(TycheCoreError::NotAuthority));
        }
        let was_active = phase == PHASE_ACTIVE;
        let mut data = copy_bytes(d);
        write_u8(data.as_mut_slice(), COMP_PHASE, PHASE_CANCELLED);
        Ok(CancelCompetitionOutcome { competition_data: data, was_active })
    }
}

} // verus!
