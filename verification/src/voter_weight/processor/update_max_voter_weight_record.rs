//! `UpdateMaxVoterWeightRecord`: stamp the max-voter-weight record with the
//! current slot. The maximum stays `u64::MAX`: governance must use absolute
//! vote thresholds rather than a share of a supply.

use vstd::prelude::*;
use crate::layout::{copy_bytes, put_bytes, read_address};
use crate::program::{AccountState, Clock, ProgramError, check_pda, is_pda, seeds3};
use crate::voter_weight::discriminator::{ID, MAX_VOTER_WEIGHT_RECORD};
use crate::voter_weight::state::max_voter_weight_record::{
    MAX_VOTER_WEIGHT_RECORD_SIZE, max_voter_weight_record_bytes, write_max_voter_weight_record,
};
use crate::voter_weight::state::registrar::{
    REG_GOVERNING_TOKEN_MINT, REG_REALM, check_registrar, reg_governing_token_mint, reg_realm,
    registrar_error,
};
use crate::voter_weight::utils::pda::{MAX_VOTER_WEIGHT_RECORD_SEED, max_voter_weight_record_seeds};

verus! {

/// Validated accounts of `UpdateMaxVoterWeightRecord`.
pub struct UpdateMaxVoterWeightRecordAccounts<'a> {
    /// The max-voter-weight record, rewritten.
    pub max_voter_weight_record: &'a AccountState,
    /// Gives the realm and the mint.
    pub registrar: &'a AccountState,
}

/// The error that the account checks of `UpdateMaxVoterWeightRecord` report, if any.
pub open spec fn update_max_voter_weight_record_accounts_error(a: Seq<AccountState>) -> Option<ProgramError> {
    if a.len() < 2 {
        Some(ProgramError::NotEnoughAccountKeys)
    } else if !a[0].is_writable {
        Some(ProgramError::InvalidAccountData)
    } else {
        None
    }
}

impl<'a> UpdateMaxVoterWeightRecordAccounts<'a> {
    /// Takes the first two accounts and checks that the record is writable.
    pub fn try_from(accounts: &'a [AccountState]) -> (r: Result<UpdateMaxVoterWeightRecordAccounts<'a>, ProgramError>)
        ensures
            match update_max_voter_weight_record_accounts_error(accounts@) {
                Some(e) => r matches Err(x) && x == e,
                None => r matches Ok(x) && {
                    &&& *x.max_voter_weight_record == accounts@[0]
                    &&& *x.registrar == accounts@[1]
                },
            },
    {
        if accounts.len() < 2 {
            return Err(ProgramError::NotEnoughAccountKeys);
        }
        let max_voter_weight_record = &accounts[0];
        let registrar = &accounts[1];
        if !max_voter_weight_record.is_writable {
            return Err(ProgramError::InvalidAccountData);
        }
        Ok(UpdateMaxVoterWeightRecordAccounts { max_voter_weight_record, registrar })
    }
}

/// Instruction context of `UpdateMaxVoterWeightRecord` (no arguments).
pub struct UpdateMaxVoterWeightRecordInstruction<'a> {
    pub accounts: UpdateMaxVoterWeightRecordAccounts<'a>,
}

impl<'a> UpdateMaxVoterWeightRecordInstruction<'a> {
    /// Validates the accounts; the instruction data is not read.
    pub fn try_from(accounts: &'a [AccountState], data: &[u8]) -> (r: Result<UpdateMaxVoterWeightRecordInstruction<'a>, ProgramError>)
        ensures
            match update_max_voter_weight_record_accounts_error(accounts@) {
                Some(e) => r matches Err(x) && x == e,
                None => r matches Ok(ix) && {
                    &&& *ix.accounts.max_voter_weight_record == accounts@[0]
                    &&& *ix.accounts.registrar == accounts@[1]
                },
            },
    {
        let accounts = UpdateMaxVoterWeightRecordAccounts::try_from(accounts)?;
        Ok(UpdateMaxVoterWeightRecordInstruction { accounts })
    }
}

/// The error that `UpdateMaxVoterWeightRecord` reports, if any, for a record
/// at `record` holding `record_data` and a registrar owned by
/// `registrar_owner` holding `registrar_data`.
pub open spec fn update_max_voter_weight_record_error(
    record: Seq<u8>,
    record_data: Seq<u8>,
    registrar_owner: Seq<u8>,
    registrar_data: Seq<u8>,
) -> Option<ProgramError> {
    if registrar_error(registrar_owner, registrar_data) is Some {
        registrar_error(registrar_owner, registrar_data)
    } else if !is_pda(
        max_voter_weight_record_seeds(reg_realm(registrar_data), reg_governing_token_mint(registrar_data)),
        ID@,
        record,
    ) {
        Some(ProgramError::InvalidSeeds)
    } else if record_data.len() < MAX_VOTER_WEIGHT_RECORD_SIZE {
        Some(ProgramError::InvalidAccountData)
    } else {
        None
    }
}

/// The record data after an `UpdateMaxVoterWeightRecord` at `slot` that
/// passed its checks: `u64::MAX`, expiring at `slot`.
pub open spec fn updated_max_voter_weight_record(record_data: Seq<u8>, registrar_data: Seq<u8>, slot: u64) -> Seq<u8> {
    put_bytes(
        record_data,
        0,
        max_voter_weight_record_bytes(
            MAX_VOTER_WEIGHT_RECORD@,
            reg_realm(registrar_data),
            reg_governing_token_mint(registrar_data),
            u64::MAX,
            Some(slot),
        ),
    )
}

impl<'a> UpdateMaxVoterWeightRecordInstruction<'a> {
    /// Checks the registrar and the record's PDA, and gives the record's new data.
    pub fn handler(&self, clock: &Clock) -> (r: Result<Vec<u8>, ProgramError>)
        ensures
            match update_max_voter_weight_record_error(
                self.accounts.max_voter_weight_record.address@,
                self.accounts.max_voter_weight_record.data@,
                self.accounts.registrar.owner@,
                self.accounts.registrar.data@,
            ) {
                Some(e) => r matches Err(x) && x == e,
                None => r matches Ok(d) && d@ == updated_max_voter_weight_record(
                    self.accounts.max_voter_weight_record.data@,
                    self.accounts.registrar.data@,
                    clock.slot,
                ),
            },
    {
        let accounts = &self.accounts;

        // 1: The registrar.
        check_registrar(accounts.registrar)?;
        let reg = accounts.registrar.data.as_slice();
        let realm = read_address(reg, REG_REALM);
        let mint = read_address(reg, REG_GOVERNING_TOKEN_MINT);

        // 2: The record is the realm's max-voter-weight PDA.
        let seeds = seeds3(&realm, &MAX_VOTER_WEIGHT_RECORD_SEED, &mint);
        let _ = check_pda(&seeds, &ID, &accounts.max_voter_weight_record.address)?;

        // 3: Rewrite it, stamped with the current slot.
        let current = accounts.max_voter_weight_record.data.as_slice();
        if current.len() < MAX_VOTER_WEIGHT_RECORD_SIZE {
            return Err(ProgramError::InvalidAccountData);
        }
        let mut data = copy_bytes(current);
        write_max_voter_weight_record(
            data.as_mut_slice(),
            &MAX_VOTER_WEIGHT_RECORD,
            &realm,
            &mint,
            u64::MAX,
            Some(clock.slot),
        );
        Ok(data)
    }
}

} // verus!
