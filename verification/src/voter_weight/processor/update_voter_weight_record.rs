//! `UpdateVoterWeightRecord`: refresh a voter's weight from their escrow
//! vault, valid for the current slot only, so that it must be called in the
//! same transaction as the governance action.

use vstd::prelude::*;
use crate::layout::{addr_at, address_eq, bytes_equal_at, copy_bytes, put_bytes, read_address, read_u64, u64_at};
use crate::program::{AccountState, Clock, ProgramError, check_pda, is_pda, seeds4};
use crate::voter_weight::args::update_voter_weight_record::{UpdateVoterWeightRecordArgs, action_of_byte};
use crate::voter_weight::discriminator::{ID, VOTER_WEIGHT_RECORD};
use crate::voter_weight::error::{PluginError, plugin_err, plugin_error};
use crate::voter_weight::state::registrar::{
    REG_COMPETITION, REG_GOVERNING_TOKEN_MINT, REG_REALM, REG_TYCHE_ESCROW_PROGRAM_ID,
    check_registrar, reg_competition, reg_governing_token_mint, reg_realm,
    reg_tyche_escrow_program_id, registrar_error,
};
use crate::voter_weight::state::voter_weight_record::{
    VOTER_WEIGHT_RECORD_MAX_SIZE, VoterWeightAction, VoterWeightRecord, VoterWeightRecordData,
    option_address_view, voter_weight_record_bytes,
};
use crate::voter_weight::utils::pda::{VOTER_WEIGHT_RECORD_SEED, voter_weight_record_seeds};

verus! {

/// Offset of `competition` in an escrow vault.
pub const VAULT_COMPETITION_OFFSET: usize = 8;
/// Offset of `depositor` in an escrow vault.
pub const VAULT_DEPOSITOR_OFFSET: usize = 40;
/// Offset of `amount` in an escrow vault.
pub const VAULT_AMOUNT_OFFSET: usize = 72;
/// Shortest vault data that holds all three fields.
pub const VAULT_MIN_LEN: usize = 80;

/// Validated accounts of `UpdateVoterWeightRecord`.
pub struct UpdateVoterWeightRecordAccounts<'a> {
    /// The voter's record, rewritten.
    pub voter_weight_record: &'a AccountState,
    /// Gives the competition and the escrow program.
    pub registrar: &'a AccountState,
    /// The voter's escrow vault for the registrar's competition.
    pub escrow_vault: &'a AccountState,
    /// Must sign and be the vault's depositor.
    pub voter_authority: &'a AccountState,
    /// The proposal voted on: stored as the action's target.
    pub proposal: &'a AccountState,
}

/// The error that the account checks of `UpdateVoterWeightRecord` report, if any.
pub open spec fn update_voter_weight_record_accounts_error(a: Seq<AccountState>) -> Option<ProgramError> {
    if a.len() < 5 {
        Some(ProgramError::NotEnoughAccountKeys)
    } else if !a[0].is_writable {
        Some(ProgramError::InvalidAccountData)
    } else if !a[3].is_signer {
        Some(ProgramError::MissingRequiredSignature)
    } else {
        None
    }
}

impl<'a> UpdateVoterWeightRecordAccounts<'a> {
    /// Takes the first five accounts and checks writability and the voter's signature.
    pub fn try_from(accounts: &'a [AccountState]) -> (r: Result<UpdateVoterWeightRecordAccounts<'a>, ProgramError>)
        ensures
            match update_voter_weight_record_accounts_error(accounts@) {
                Some(e) => r matches Err(x) && x == e,
                None => r matches Ok(x) && {
                    &&& *x.voter_weight_record == accounts@[0]
                    &&& *x.registrar == accounts@[1]
                    &&& *x.escrow_vault == accounts@[2]
                    &&& *x.voter_authority == accounts@[3]
                    &&& *x.proposal == accounts@[4]
                },
            },
    {
        if accounts.len() < 5 {
            return Err(ProgramError::NotEnoughAccountKeys);
        }
        let voter_weight_record = &accounts[0];
        let registrar = &accounts[1];
        let escrow_vault = &accounts[2];
        let voter_authority = &accounts[3];
        let proposal = &accounts[4];
        if !voter_weight_record.is_writable {
            return Err(ProgramError::InvalidAccountData);
        }
        if !voter_authority.is_signer {
            return Err(ProgramError::MissingRequiredSignature);
        }
        Ok(UpdateVoterWeightRecordAccounts { voter_weight_record, registrar, escrow_vault, voter_authority, proposal })
    }
}

/// Instruction context of `UpdateVoterWeightRecord`.
pub struct UpdateVoterWeightRecordInstruction<'a> {
    pub accounts: UpdateVoterWeightRecordAccounts<'a>,
    pub args: UpdateVoterWeightRecordArgs,
}

/// The action that the arguments `data` select, if they are valid: none
/// means `CastVote`, otherwise the first byte.
pub open spec fn update_action(data: Seq<u8>) -> Option<VoterWeightAction> {
    if data.len() == 0 {
        Some(VoterWeightAction::CastVote)
    } else {
        action_of_byte(data[0])
    }
}

impl<'a> UpdateVoterWeightRecordInstruction<'a> {
    /// Validates the accounts, then reads the action.
    pub fn try_from(accounts: &'a [AccountState], data: &[u8]) -> (r: Result<UpdateVoterWeightRecordInstruction<'a>, ProgramError>)
        ensures
            match update_voter_weight_record_accounts_error(accounts@) {
                Some(e) => r matches Err(x) && x == e,
                None => match update_action(data@) {
                    None => r matches Err(x) && x == ProgramError::InvalidInstructionData,
                    Some(action) => r matches Ok(ix) && {
                        &&& *ix.accounts.voter_weight_record == accounts@[0]
                        &&& *ix.accounts.registrar == accounts@[1]
                        &&& *ix.accounts.escrow_vault == accounts@[2]
                        &&& *ix.accounts.voter_authority == accounts@[3]
                        &&& *ix.accounts.proposal == accounts@[4]
                        &&& ix.args.action == action
                    },
                },
            },
    {
        let accounts = UpdateVoterWeightRecordAccounts::try_from(accounts)?;
        let args = UpdateVoterWeightRecordArgs::load(data)?;
        Ok(UpdateVoterWeightRecordInstruction { accounts, args })
    }
}

/// The contents of the accounts of an `UpdateVoterWeightRecord` as plain values.
pub struct UpdateVoterWeightRecordView {
    pub record: Seq<u8>,
    pub record_owner: Seq<u8>,
    pub record_data: Seq<u8>,
    pub registrar_owner: Seq<u8>,
    pub registrar_data: Seq<u8>,
    pub vault_owner: Seq<u8>,
    pub vault_data: Seq<u8>,
    pub voter: Seq<u8>,
    pub proposal: Seq<u8>,
}

/// The plain contents of the accounts of `ix`.
pub open spec fn update_voter_weight_record_view(ix: UpdateVoterWeightRecordInstruction) -> UpdateVoterWeightRecordView {
    let a = ix.accounts;
    UpdateVoterWeightRecordView {
        record: a.voter_weight_record.address@,
        record_owner: a.voter_weight_record.owner@,
        record_data: a.voter_weight_record.data@,
        registrar_owner: a.registrar.owner@,
        registrar_data: a.registrar.data@,
        vault_owner: a.escrow_vault.owner@,
        vault_data: a.escrow_vault.data@,
        voter: a.voter_authority.address@,
        proposal: a.proposal.address@,
    }
}

/// The error that `UpdateVoterWeightRecord` reports for these account
/// contents, if any.
pub open spec fn update_voter_weight_record_error(v: UpdateVoterWeightRecordView) -> Option<ProgramError> {
    if registrar_error(v.registrar_owner, v.registrar_data) is Some {
        registrar_error(v.registrar_owner, v.registrar_data)
    } else if v.vault_owner != reg_tyche_escrow_program_id(v.registrar_data) {
        Some(ProgramError::InvalidAccountOwner)
    } else if v.vault_data.len() < VAULT_MIN_LEN {
        Some(plugin_err(PluginError::InvalidVaultData))
    } else if addr_at(v.vault_data, VAULT_COMPETITION_OFFSET as int) != reg_competition(v.registrar_data) {
        Some(plugin_err(PluginError::WrongCompetition))
    } else if addr_at(v.vault_data, VAULT_DEPOSITOR_OFFSET as int) != v.voter {
        Some(plugin_err(PluginError::WrongDepositor))
    } else if !is_pda(
        voter_weight_record_seeds(reg_realm(v.registrar_data), reg_governing_token_mint(v.registrar_data), v.voter),
        ID@,
        v.record,
    ) {
        Some(ProgramError::InvalidSeeds)
    } else if v.record_owner != ID@ {
        Some(ProgramError::InvalidAccountOwner)
    } else if v.record_data.len() < VOTER_WEIGHT_RECORD_MAX_SIZE {
        Some(ProgramError::InvalidAccountData)
    } else {
        None
    }
}

/// The record data after an `UpdateVoterWeightRecord` for `action` at `slot`
/// that passed its checks: the voter's weight is the vault's amount, it
/// expires at `slot`, and the action targets the proposal.
pub open spec fn updated_voter_weight_record(v: UpdateVoterWeightRecordView, action: VoterWeightAction, slot: u64) -> Seq<u8> {
    put_bytes(
        v.record_data,
        0,
        voter_weight_record_bytes(
            VOTER_WEIGHT_RECORD@,
            reg_realm(v.registrar_data),
            reg_governing_token_mint(v.registrar_data),
            v.voter,
            u64_at(v.vault_data, VAULT_AMOUNT_OFFSET as int),
            Some(slot),
            Some(action),
            Some(v.proposal),
        ),
    )
}

impl<'a> UpdateVoterWeightRecordInstruction<'a> {
    /// Checks the registrar, the vault and the record, and gives the record's
    /// new data.
    pub fn handler(&self, clock: &Clock) -> (r: Result<Vec<u8>, ProgramError>)
        ensures
            match update_voter_weight_record_error(update_voter_weight_record_view(*self)) {
                Some(e) => r matches Err(x) && x == e,
                None => r matches Ok(d) && d@ == updated_voter_weight_record(
                    update_voter_weight_record_view(*self),
                    self.args.action,
                    clock.slot,
                ),
            },
    {
        let accounts = &self.accounts;
        let voter = accounts.voter_authority.address;

        // 1: The registrar.
        check_registrar(accounts.registrar)?;
        let reg = accounts.registrar.data.as_slice();
        let escrow_program_id = read_address(reg, REG_TYCHE_ESCROW_PROGRAM_ID);
        let realm = read_address(reg, REG_REALM);
        let mint = read_address(reg, REG_GOVERNING_TOKEN_MINT);

        // 2: The vault must belong to the escrow program.
        if !address_eq(&accounts.escrow_vault.owner, &escrow_program_id) {
            return Err(ProgramError::InvalidAccountOwner);
        }

        // 3: Its competition, depositor and amount.
        let vault = accounts.escrow_vault.data.as_slice();
        if vault.len() < VAULT_MIN_LEN {
            return Err(plugin_error(PluginError::InvalidVaultData));
        }
        let vault_amount = read_u64(vault, VAULT_AMOUNT_OFFSET);

        // 4: The vault is the voter's, for the registrar's competition.
        if !bytes_equal_at(vault, VAULT_COMPETITION_OFFSET, &read_address(reg, REG_COMPETITION)) {
            return Err(plugin_error(PluginError::WrongCompetition));
        }
        if !bytes_equal_at(vault, VAULT_DEPOSITOR_OFFSET, &voter) {
            return Err(plugin_error(PluginError::WrongDepositor));
        }

        // 5: The record is the voter's PDA, owned by this program.
        let seeds = seeds4(&VOTER_WEIGHT_RECORD_SEED, &realm, &mint, &voter);
        let _ = check_pda(&seeds, &ID, &accounts.voter_weight_record.address)?;
        if !address_eq(&accounts.voter_weight_record.owner, &ID) {
            return Err(ProgramError::InvalidAccountOwner);
        }

        // 6: Rewrite the record.
        let current = accounts.voter_weight_record.data.as_slice();
        if current.len() < VOTER_WEIGHT_RECORD_MAX_SIZE {
            return Err(ProgramError::InvalidAccountData);
        }
        let record = VoterWeightRecord {
            inner: VoterWeightRecordData {
                account_discriminator: VOTER_WEIGHT_RECORD,
                realm,
                governing_token_mint: mint,
                governing_token_owner: voter,
                voter_weight: vault_amount,
                voter_weight_expiry: Some(clock.slot),
                weight_action: Some(self.args.action),
                weight_action_target: Some(accounts.proposal.address),
                reserved: [0u8; 8],
            },
        };
        let mut data = copy_bytes(current);
        record.write_to(data.as_mut_slice());
        assert(option_address_view(record.inner.weight_action_target) == Some(accounts.proposal.address@));
        Ok(data)
    }
}

} // verus!
