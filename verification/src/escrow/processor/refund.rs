//! `Refund`: return the whole vault to a depositor who did not win.

use vstd::prelude::*;
use crate::common::{PHASE_CANCELLED, PHASE_SETTLED};
use crate::competition::discriminator::{COMPETITION_STATE, PARTICIPANT_RECORD};
use crate::competition::state::{
    COMPETITION_STATE_LEN, COMP_PHASE, IS_WINNER, PARTICIPANT_RECORD_LEN, PART_COMPETITION,
    PART_IS_WINNER, PART_PARTICIPANT, comp_discriminator, comp_phase, part_is_winner,
};
use crate::escrow::discriminator::ESCROW_VAULT;
use crate::escrow::error::{TycheEscrowError, escrow_err, escrow_error};
use crate::escrow::processor::release::{record_error, vault_error};
use crate::escrow::state::{ESCROW_VAULT_LEN, VAULT_COMPETITION, VAULT_DEPOSITOR};
use crate::layout::{bytes_equal_at, read_u8, zero_bytes, zeros};
use crate::program::{AccountState, ProgramError};

verus! {

/// Validated accounts of `Refund`.
pub struct RefundAccounts<'a> {
    /// The vault: drained and zeroed.
    pub vault: &'a AccountState,
    /// The depositor: must sign; receives every lamport of the vault.
    pub depositor: &'a AccountState,
    pub competition: &'a AccountState,
    /// Read only when the competition is Settled.
    pub participant_record: &'a AccountState,
}

/// The error that the account checks of `Refund` report, if any.
pub open spec fn refund_accounts_error(a: Seq<AccountState>) -> Option<ProgramError> {
    if a.len() < 4 {
        Some(ProgramError::NotEnoughAccountKeys)
    } else if !a[0].is_writable {
        Some(ProgramError::InvalidAccountData)
    } else if !a[1].is_signer {
        Some(ProgramError::MissingRequiredSignature)
    } else if !a[1].is_writable {
        Some(ProgramError::InvalidAccountData)
    } else {
        None
    }
}

impl<'a> RefundAccounts<'a> {
    /// Takes the first four accounts and checks writability and the depositor's signature.
    pub fn try_from(accounts: &'a [AccountState]) -> (r: Result<RefundAccounts<'a>, ProgramError>)
        ensures
            match refund_accounts_error(accounts@) {
                Some(e) => r matches Err(x) && x == e,
                None => r matches Ok(x) && {
                    &&& *x.vault == accounts@[0]
                    &&& *x.depositor == accounts@[1]
                    &&& *x.competition == accounts@[2]
                    &&& *x.participant_record == accounts@[3]
                },
            },
    {
        if accounts.len() < 4 {
            return Err(ProgramError::NotEnoughAccountKeys);
        }
        let vault = &accounts[0];
        let depositor = &accounts[1];
        let competition = &accounts[2];
        let participant_record = &accounts[3];
        if !vault.is_writable {
            return Err(ProgramError::InvalidAccountData);
        }
        if !depositor.is_signer {
            return Err(ProgramError::MissingRequiredSignature);
        }
        if !depositor.is_writable {
            return Err(ProgramError::InvalidAccountData);
        }
        Ok(RefundAccounts { vault, depositor, competition, participant_record })
    }
}

/// Instruction context of `Refund` (no arguments).
pub struct RefundInstruction<'a> {
    pub accounts: RefundAccounts<'a>,
}

impl<'a> RefundInstruction<'a> {
    /// Validates the accounts; the instruction data is not read.
    pub fn try_from(accounts: &'a [AccountState], data: &[u8]) -> (r: Result<RefundInstruction<'a>, ProgramError>)
        ensures
            match refund_accounts_error(accounts@) {
                Some(e) => r matches Err(x) && x == e,
                None => r matches Ok(ix) && {
                    &&& *ix.accounts.vault == accounts@[0]
                    &&& *ix.accounts.depositor == accounts@[1]
                    &&& *ix.accounts.competition == accounts@[2]
                    &&& *ix.accounts.participant_record == accounts@[3]
                },
            },
    {
        let accounts = RefundAccounts::try_from(accounts)?;
        Ok(RefundInstruction { accounts })
    }
}

/// The contents of the accounts of a `Refund` as plain values.
pub struct RefundView {
    pub vault_data: Seq<u8>,
    pub vault_lamports: u64,
    pub depositor: Seq<u8>,
    pub depositor_lamports: u64,
    pub competition: Seq<u8>,
    pub competition_data: Seq<u8>,
    pub record_data: Seq<u8>,
}

/// The plain contents of the accounts of `ix`.
pub open spec fn refund_view(ix: RefundInstruction) -> RefundView {
    let a = ix.accounts;
    RefundView {
        vault_data: a.vault.data@,
        vault_lamports: a.vault.lamports,
        depositor: a.depositor.address@,
        depositor_lamports: a.depositor.lamports,
        competition: a.competition.address@,
        competition_data: a.competition.data@,
        record_data: a.participant_record.data@,
    }
}

/// The error that `Refund` reports for these account contents, if any.
pub open spec fn refund_error(v: RefundView) -> Option<ProgramError> {
    if vault_error(v.vault_data, v.competition, v.depositor) is Some {
        vault_error(v.vault_data, v.competition, v.depositor)
    } else if v.competition_data.len() != COMPETITION_STATE_LEN {
        Some(ProgramError::InvalidAccountData)
    } else if comp_discriminator(v.competition_data) != COMPETITION_STATE@ {
        Some(escrow_err(TycheEscrowError::InvalidDiscriminator))
    } else if comp_phase(v.competition_data) == PHASE_SETTLED && record_error(
        v.record_data,
        v.competition,
        v.depositor,
    ) is Some {
        record_error(v.record_data, v.competition, v.depositor)
    } else if comp_phase(v.competition_data) == PHASE_SETTLED && part_is_winner(v.record_data)
        == IS_WINNER {
        Some(escrow_err(TycheEscrowError::WinnerCannotRefund))
    } else if comp_phase(v.competition_data) != PHASE_SETTLED && comp_phase(v.competition_data)
        != PHASE_CANCELLED {
        Some(escrow_err(TycheEscrowError::InvalidPhase))
    } else if v.depositor_lamports + v.vault_lamports > u64::MAX {
        Some(escrow_err(TycheEscrowError::ArithmeticOverflow))
    } else {
        None
    }
}

/// What a `Refund` that passed its checks does, in order: zero the vault's
/// data, set the vault's lamports to 0 and the depositor's to
/// `depositor_lamports`.
pub struct RefundOutcome {
    pub vault_data: Vec<u8>,
    pub vault_lamports: u64,
    pub depositor_lamports: u64,
}

/// Whether `o` is the effect of a `Refund` that passed its checks.
pub open spec fn refund_effects(v: RefundView, o: RefundOutcome) -> bool {
    &&& o.vault_data@ == zeros(v.vault_data.len())
    &&& o.vault_lamports == 0
    &&& o.depositor_lamports == v.depositor_lamports + v.vault_lamports
}

impl<'a> RefundInstruction<'a> {
    /// Checks the refund and describes its effect: every lamport of the vault
    /// (bid and rent) goes back to the depositor.
    pub fn handler(&self) -> (r: Result<RefundOutcome, ProgramError>)
        ensures
            match refund_error(refund_view(*self)) {
                Some(e) => r matches Err(x) && x == e,
                None => r matches Ok(o) && refund_effects(refund_view(*self), o),
            },
    {
        let accounts = &self.accounts;

        // 1: The vault must belong to this competition and depositor.
        let vd = accounts.vault.data.as_slice();
        if vd.len() != ESCROW_VAULT_LEN {
            return Err(ProgramError::InvalidAccountData);
        }
        if !bytes_equal_at(vd, 0, &ESCROW_VAULT) {
            return Err(escrow_error(TycheEscrowError::InvalidDiscriminator));
        }
        if !bytes_equal_at(vd, VAULT_COMPETITION, &accounts.competition.address) {
            return Err(ProgramError::InvalidAccountData);
        }
        if !bytes_equal_at(vd, VAULT_DEPOSITOR, &accounts.depositor.address) {
            return Err(ProgramError::InvalidAccountData);
        }

        // 2: Competition phase.
        let comp = accounts.competition.data.as_slice();
        if comp.len() != COMPETITION_STATE_LEN {
            return Err(ProgramError::InvalidAccountData);
        }
        if !bytes_equal_at(comp, 0, &COMPETITION_STATE) {
            return Err(escrow_error(TycheEscrowError::InvalidDiscriminator));
        }
        let phase = read_u8(comp, COMP_PHASE);

        // 3: Settled: only non-winners; Cancelled: anyone; otherwise refused.
        if phase == PHASE_SETTLED {
            let rec = accounts.participant_record.data.as_slice();
            if rec.len() != PARTICIPANT_RECORD_LEN {
                return Err(ProgramError::InvalidAccountData);
            }
            if !bytes_equal_at(rec, 0, &PARTICIPANT_RECORD) {
                return Err(escrow_error(TycheEscrowError::InvalidDiscriminator));
            }
            if !bytes_equal_at(rec, PART_COMPETITION, &accounts.competition.address) {
                return Err(ProgramError::InvalidAccountData);
            }
            if !bytes_equal_at(rec, PART_PARTICIPANT, &accounts.depositor.address) {
                return Err(ProgramError::InvalidAccountData);
            }
            if read_u8(rec, PART_IS_WINNER) == IS_WINNER {
                return Err(escrow_error(TycheEscrowError::WinnerCannotRefund));
            }
        } else if phase != PHASE_CANCELLED {
            return Err(escrow_error(TycheEscrowError::InvalidPhase));
        }

        // 4: Everything in the vault goes back to the depositor.
        let vault_lamports = accounts.vault.lamports;
        let new_depositor = match accounts.depositor.lamports.checked_add(vault_lamports) {
            Some(n) => n,
            None => return Err(escrow_error(TycheEscrowError::ArithmeticOverflow)),
        };
        Ok(RefundOutcome {
            vault_data: zero_bytes(vd.len()),
            vault_lamports: 0,
            depositor_lamports: new_depositor,
        })
    }
}

} // verus!
