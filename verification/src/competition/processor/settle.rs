//! `SettleCompetition`: record the outcome of an undelegated competition and
//! mark the winner.

use vstd::prelude::*;
use crate::common::{PHASE_SETTLED, PHASE_SETTLING};
use crate::competition::discriminator::{COMPETITION_STATE, PARTICIPANT_RECORD};
use crate::competition::error::{TycheCoreError, core_err, core_error};
use crate::competition::instruction_args::SettleCompetitionArgs;
use crate::competition::processor::close::{config_error, read_crank_authority};
use crate::competition::state::{
    COMPETITION_STATE_LEN, COMP_PHASE, COMP_SETTLEMENT_REF, IS_WINNER, PARTICIPANT_RECORD_LEN,
    PART_IS_WINNER, PART_PARTICIPANT, cfg_crank_authority, comp_discriminator, comp_phase,
    part_discriminator, part_participant,
};
use crate::layout::{
    address_eq, bytes_equal_at, copy_bytes, put_bytes, put_u8, read_u8, write_bytes, write_u8,
    zeros,
};
use crate::program::{AccountState, ProgramError};

verus! {

/// Validated accounts of `SettleCompetition`.
pub struct SettleCompetitionAccounts<'a> {
    pub competition: &'a AccountState,
    /// The protocol crank: must sign.
    pub crank: &'a AccountState,
    /// The competition's delegation record: empty once undelegated.
    pub delegation_record: &'a AccountState,
    pub protocol_config: &'a AccountState,
    /// The winner's participant record (written only when there is a winner).
    pub winner_participant_record: &'a AccountState,
}

/// The error that the account checks of `SettleCompetition` report, if any.
pub open spec fn settle_accounts_error(a: Seq<AccountState>) -> Option<ProgramError> {
    if a.len() < 5 {
        Some(ProgramError::NotEnoughAccountKeys)
    } else if !a[0].is_writable {
        Some(ProgramError::InvalidAccountData)
    } else if !a[1].is_signer {
        Some(ProgramError::MissingRequiredSignature)
    } else {
        None
    }
}

impl<'a> SettleCompetitionAccounts<'a> {
    /// Takes the first five accounts and checks them.
    pub fn try_from(accounts: &'a [AccountState]) -> (r: Result<SettleCompetitionAccounts<'a>, ProgramError>)
        ensures
            match settle_accounts_error(accounts@) {
                Some(e) => r matches Err(x) && x == e,
                None => r matches Ok(x) && {
                    &&& *x.competition == accounts@[0]
                    &&& *x.crank == accounts@[1]
                    &&& *x.delegation_record == accounts@[2]
                    &&& *x.protocol_config == accounts@[3]
                    &&& *x.winner_participant_record == accounts@[4]
                },
            },
    {
        if accounts.len() < 5 {
            return Err(ProgramError::NotEnoughAccountKeys);
        }
        let competition = &accounts[0];
        let crank = &accounts[1];
        if !competition.is_writable {
            return Err(ProgramError::InvalidAccountData);
        }
        if !crank.is_signer {
            return Err(ProgramError::MissingRequiredSignature);
        }
        Ok(SettleCompetitionAccounts {
            competition,
            crank,
            delegation_record: &accounts[2],
            protocol_config: &accounts[3],
            winner_participant_record: &accounts[4],
        })
    }
}

/// Instruction context of `SettleCompetition`.
pub struct SettleCompetitionInstruction<'a> {
    pub accounts: SettleCompetitionAccounts<'a>,
    pub args: &'a SettleCompetitionArgs,
}

impl<'a> SettleCompetitionInstruction<'a> {
    /// Validates the accounts and binds the arguments.
    pub fn try_from(accounts: &'a [AccountState], args: &'a SettleCompetitionArgs) -> (r: Result<SettleCompetitionInstruction<'a>, ProgramError>)
        ensures
            match settle_accounts_error(accounts@) {
                Some(e) => r matches Err(x) && x == e,
                None => r matches Ok(ix) && {
                    &&& *ix.accounts.competition == accounts@[0]
                    &&& *ix.accounts.crank == accounts@[1]
                    &&& *ix.accounts.delegation_record == accounts@[2]
                    &&& *ix.accounts.protocol_config == accounts@[3]
                    &&& *ix.accounts.winner_participant_record == accounts@[4]
                    &&& *ix.args == *args
                },
            },
    {
        let accounts = SettleCompetitionAccounts::try_from(accounts)?;
        Ok(SettleCompetitionInstruction { accounts, args })
    }
}

/// The error that the checks on the competition report, if any: the crank
/// may settle a Settling competition once its delegation record is empty.
pub open spec fn settle_state_error(d: Seq<u8>, cfg: Seq<u8>, crank: Seq<u8>, delegation_lamports: u64) -> Option<ProgramError> {
    if config_error(cfg) is Some {
        config_error(cfg)
    } else if comp_discriminator(d) != COMPETITION_STATE@ {
        Some(core_err(TycheCoreError::InvalidDiscriminator))
    } else if comp_phase(d) != PHASE_SETTLING {
        Some(core_err(TycheCoreError::InvalidPhase))
    } else if crank != cfg_crank_authority(cfg) {
        Some(core_err(TycheCoreError::InvalidCrankAuthority))
    } else if delegation_lamports != 0 {
        Some(core_err(TycheCoreError::NotUndelegated))
    } else {
        None
    }
}

/// The error that `SettleCompetition` reports, if any; the winner's record
/// is checked only when `winner` is not the zero address.
pub open spec fn settle_error(
    d: Seq<u8>,
    cfg: Seq<u8>,
    crank: Seq<u8>,
    delegation_lamports: u64,
    record: Seq<u8>,
    winner: Seq<u8>,
) -> Option<ProgramError> {
    if settle_state_error(d, cfg, crank, delegation_lamports) is Some {
        settle_state_error(d, cfg, crank, delegation_lamports)
    } else if winner == zeros(32) {
        None
    } else if part_discriminator(record) != PARTICIPANT_RECORD@ {
        Some(core_err(TycheCoreError::InvalidDiscriminator))
    } else if part_participant(record) != winner {
        Some(core_err(TycheCoreError::InvalidAccountData))
    } else {
        None
    }
}

/// The competition data after settlement: Settled, pointing at `settlement_ref`.
pub open spec fn settled_bytes(d: Seq<u8>, settlement_ref: Seq<u8>) -> Seq<u8> {
    put_u8(put_bytes(d, COMP_SETTLEMENT_REF as int, settlement_ref), COMP_PHASE as int, PHASE_SETTLED)
}

/// What a `SettleCompetition` that passed its checks does: store
/// `competition_data`, and `winner_record_data` into the winner's record
/// when there is a winner.
pub struct SettleCompetitionOutcome {
    pub competition_data: Vec<u8>,
    pub winner_record_data: Option<Vec<u8>>,
}

impl<'a> SettleCompetitionInstruction<'a> {
    /// Checks the settlement and describes it.
    pub fn handler(&self) -> (r: Result<SettleCompetitionOutcome, ProgramError>)
        requires
            config_error(self.accounts.protocol_config.data@) is None
                ==> self.accounts.competition.data@.len() == COMPETITION_STATE_LEN,
            settle_state_error(
                self.accounts.competition.data@,
                self.accounts.protocol_config.data@,
                self.accounts.crank.address@,
                self.accounts.delegation_record.lamports,
            ) is None && self.args.winner@ != zeros(32)
                ==> self.accounts.winner_participant_record.data@.len() == PARTICIPANT_RECORD_LEN,
        ensures
            match settle_error(
                self.accounts.competition.data@,
                self.accounts.protocol_config.data@,
                self.accounts.crank.address@,
                self.accounts.delegation_record.lamports,
                self.accounts.winner_participant_record.data@,
                self.args.winner@,
            ) {
                Some(e) => r matches Err(x) && x == e,
                None => r matches Ok(o) && {
                    &&& o.competition_data@ == settled_bytes(self.accounts.competition.data@, self.args.settlement_ref@)
                    &&& if self.args.winner@ == zeros(32) {
                        o.winner_record_data is None
                    } else {
                        o.winner_record_data matches Some(w) && w@ == put_u8(
                            self.accounts.winner_participant_record.data@,
                            PART_IS_WINNER as int,
                            IS_WINNER,
                        )
                    }
                },
            },
    {
        let accounts = &self.accounts;
        let args = self.args;

        // 1: Crank authority from the configuration.
        let crank_authority = read_crank_authority(accounts.protocol_config.data.as_slice())?;

        // 2-5: The competition must be Settling and undelegated, the signer the crank.
        let d = accounts.competition.data.as_slice();
        if !bytes_equal_at(d, 0, &COMPETITION_STATE) {
            return Err(core_error(TycheCoreError::InvalidDiscriminator));
        }
        if read_u8(d, COMP_PHASE) != PHASE_SETTLING {
            return Err(core_error(TycheCoreError::InvalidPhase));
        }
        if !address_eq(&accounts.crank.address, &crank_authority) {
            return Err(core_error(TycheCoreError::InvalidCrankAuthority));
        }
        if accounts.delegation_record.lamports != 0 {
            return Err(core_error(TycheCoreError::NotUndelegated));
        }

        // 6-7: Settlement reference, then the terminal phase.
        let mut data = copy_bytes(d);
        write_bytes(data.as_mut_slice(), COMP_SETTLEMENT_REF, &args.settlement_ref);
        write_u8(data.as_mut_slice(), COMP_PHASE, PHASE_SETTLED);

        // 8: Mark the winner, if there is one.
        let zero = [0u8; 32];
        assert(zero@ =~= zeros(32));
        if address_eq(&args.winner, &zero) {
            return Ok(SettleCompetitionOutcome { competition_data: data, winner_record_data: None });
        }
        let rec = accounts.winner_participant_record.data.as_slice();
        if !bytes_equal_at(rec, 0, &PARTICIPANT_RECORD) {
            return Err(core_error(TycheCoreError::InvalidDiscriminator));
        }
        if !bytes_equal_at(rec, PART_PARTICIPANT, &args.winner) {
            return Err(core_error(TycheCoreError::InvalidAccountData));
        }
        let mut record = copy_bytes(rec);
        write_u8(record.as_mut_slice(), PART_IS_WINNER, IS_WINNER);
        Ok(SettleCompetitionOutcome { competition_data: data, winner_record_data: Some(record) })
    }
}

} // verus!
