//! `CreateVoterWeightRecord`: create a voter's record, expired and of zero
//! weight, to be refreshed by `UpdateVoterWeightRecord`.

use vstd::prelude::*;
use crate::layout::{bytes_equal_at, put_bytes, zero_bytes, zeros};
use crate::program::{
    AccountState, CreateAccountCpi, ProgramError, check_pda, is_pda, pda_bump, seeds3, seeds4,
    seeds_view, with_bump,
};
use crate::voter_weight::discriminator::{ID, VOTER_WEIGHT_RECORD};
use crate::voter_weight::state::registrar::{
    REG_GOVERNING_TOKEN_MINT, REG_REALM, check_registrar, reg_governing_token_mint, reg_realm,
    registrar_error,
};
use crate::voter_weight::state::voter_weight_record::{
    VOTER_WEIGHT_RECORD_MAX_SIZE, VoterWeightRecord, VoterWeightRecordData,
    voter_weight_record_bytes,
};
use crate::voter_weight::utils::pda::{
    REGISTRAR_SEED, VOTER_WEIGHT_RECORD_SEED, registrar_seeds, voter_weight_record_seeds,
};

verus! {

/// Validated accounts of `CreateVoterWeightRecord`.
pub struct CreateVoterWeightRecordAccounts<'a> {
    /// The voter's record PDA to create.
    pub voter_weight_record: &'a AccountState,
    pub registrar: &'a AccountState,
    pub realm: &'a AccountState,
    pub governing_token_mint: &'a AccountState,
    /// Must sign; the record is this voter's.
    pub voter_authority: &'a AccountState,
    /// Must sign; funds the rent.
    pub payer: &'a AccountState,
    pub system_program: &'a AccountState,
}

/// The error that the account checks of `CreateVoterWeightRecord` report, if any.
pub open spec fn create_voter_weight_record_accounts_error(a: Seq<AccountState>) -> Option<ProgramError> {
    if a.len() < 7 {
        Some(ProgramError::NotEnoughAccountKeys)
    } else if !a[0].is_writable {
        Some(ProgramError::InvalidAccountData)
    } else if !a[4].is_signer {
        Some(ProgramError::MissingRequiredSignature)
    } else if !a[5].is_signer {
        Some(ProgramError::MissingRequiredSignature)
    } else {
        None
    }
}

impl<'a> CreateVoterWeightRecordAccounts<'a> {
    /// Takes the first seven accounts and checks writability and signatures.
    pub fn try_from(accounts: &'a [AccountState]) -> (r: Result<CreateVoterWeightRecordAccounts<'a>, ProgramError>)
        ensures
            match create_voter_weight_record_accounts_error(accounts@) {
                Some(e) => r matches Err(x) && x == e,
                None => r matches Ok(x) && {
                    &&& *x.voter_weight_record == accounts@[0]
                    &&& *x.registrar == accounts@[1]
                    &&& *x.realm == accounts@[2]
                    &&& *x.governing_token_mint == accounts@[3]
                    &&& *x.voter_authority == accounts@[4]
                    &&& *x.payer == accounts@[5]
                    &&& *x.system_program == accounts@[6]
                },
            },
    {
        if accounts.len() < 7 {
            return Err(ProgramError::NotEnoughAccountKeys);
        }
        let voter_weight_record = &accounts[0];
        let registrar = &accounts[1];
        let realm = &accounts[2];
        let governing_token_mint = &accounts[3];
        let voter_authority = &accounts[4];
        let payer = &accounts[5];
        let system_program = &accounts[6];
        if !voter_weight_record.is_writable {
            return Err(ProgramError::InvalidAccountData);
        }
        if !voter_authority.is_signer {
            return Err(ProgramError::MissingRequiredSignature);
        }
        if !payer.is_signer {
            return Err(ProgramError::MissingRequiredSignature);
        }
        Ok(CreateVoterWeightRecordAccounts {
            voter_weight_record,
            registrar,
            realm,
            governing_token_mint,
            voter_authority,
            payer,
            system_program,
        })
    }
}

/// Instruction context of `CreateVoterWeightRecord` (no arguments).
pub struct CreateVoterWeightRecordInstruction<'a> {
    pub accounts: CreateVoterWeightRecordAccounts<'a>,
}

impl<'a> CreateVoterWeightRecordInstruction<'a> {
    /// Validates the accounts; the instruction data is not read.
    pub fn try_from(accounts: &'a [AccountState], data: &[u8]) -> (r: Result<CreateVoterWeightRecordInstruction<'a>, ProgramError>)
        ensures
            match create_voter_weight_record_accounts_error(accounts@) {
                Some(e) => r matches Err(x) && x == e,
                None => r matches Ok(ix) && {
                    &&& *ix.accounts.voter_weight_record == accounts@[0]
                    &&& *ix.accounts.registrar == accounts@[1]
                    &&& *ix.accounts.realm == accounts@[2]
                    &&& *ix.accounts.governing_token_mint == accounts@[3]
                    &&& *ix.accounts.voter_authority == accounts@[4]
                    &&& *ix.accounts.payer == accounts@[5]
                    &&& *ix.accounts.system_program == accounts@[6]
                },
            },
    {
        let accounts = CreateVoterWeightRecordAccounts::try_from(accounts)?;
        Ok(CreateVoterWeightRecordInstruction { accounts })
    }
}

/// The contents of the accounts of a `CreateVoterWeightRecord` as plain values.
pub struct CreateVoterWeightRecordView {
    pub record: Seq<u8>,
    pub record_data: Seq<u8>,
    pub registrar: Seq<u8>,
    pub registrar_owner: Seq<u8>,
    pub registrar_data: Seq<u8>,
    pub realm: Seq<u8>,
    pub mint: Seq<u8>,
    pub voter: Seq<u8>,
}

/// The plain contents of the accounts of `ix`.
pub open spec fn create_voter_weight_record_view(ix: CreateVoterWeightRecordInstruction) -> CreateVoterWeightRecordView {
    let a = ix.accounts;
    CreateVoterWeightRecordView {
        record: a.voter_weight_record.address@,
        record_data: a.voter_weight_record.data@,
        registrar: a.registrar.address@,
        registrar_owner: a.registrar.owner@,
        registrar_data: a.registrar.data@,
        realm: a.realm.address@,
        mint: a.governing_token_mint.address@,
        voter: a.voter_authority.address@,
    }
}

/// The error that `CreateVoterWeightRecord` reports for these account
/// contents, if any.
pub open spec fn create_voter_weight_record_error(v: CreateVoterWeightRecordView) -> Option<ProgramError> {
    if registrar_error(v.registrar_owner, v.registrar_data) is Some {
        registrar_error(v.registrar_owner, v.registrar_data)
    } else if reg_realm(v.registrar_data) != v.realm {
        Some(ProgramError::InvalidArgument)
    } else if reg_governing_token_mint(v.registrar_data) != v.mint {
        Some(ProgramError::InvalidArgument)
    } else if !is_pda(registrar_seeds(v.realm, v.mint), ID@, v.registrar) {
        Some(ProgramError::InvalidSeeds)
    } else if !is_pda(voter_weight_record_seeds(v.realm, v.mint, v.voter), ID@, v.record) {
        Some(ProgramError::InvalidSeeds)
    } else if v.record_data.len() != 0 {
        Some(ProgramError::AccountAlreadyInitialized)
    } else {
        None
    }
}

/// What a `CreateVoterWeightRecord` that passed its checks does, in order:
/// create the record, then store `record_data` in it.
pub struct CreateVoterWeightRecordOutcome {
    pub create_record: CreateAccountCpi,
    pub record_data: Vec<u8>,
}

/// Whether `o` is the effect of a `CreateVoterWeightRecord` that passed its
/// checks: a record of the largest size, of weight 0 and expired at slot 0,
/// with no action and no target.
pub open spec fn create_voter_weight_record_effects(
    v: CreateVoterWeightRecordView,
    o: CreateVoterWeightRecordOutcome,
) -> bool {
    let seeds = voter_weight_record_seeds(v.realm, v.mint, v.voter);
    &&& o.create_record.space == VOTER_WEIGHT_RECORD_MAX_SIZE
    &&& o.create_record.owner@ == ID@
    &&& seeds_view(o.create_record.signer_seeds@) == seeds.push(seq![pda_bump(seeds, ID@)])
    &&& o.record_data@ == put_bytes(
        zeros(VOTER_WEIGHT_RECORD_MAX_SIZE as nat),
        0,
        voter_weight_record_bytes(
            VOTER_WEIGHT_RECORD@,
            v.realm,
            v.mint,
            v.voter,
            0,
            Some(0u64),
            None,
            None,
        ),
    )
}

impl<'a> CreateVoterWeightRecordInstruction<'a> {
    /// Checks the registrar and the record's PDA, and describes the record's
    /// creation and initial data.
    pub fn handler(&self) -> (r: Result<CreateVoterWeightRecordOutcome, ProgramError>)
        ensures
            match create_voter_weight_record_error(create_voter_weight_record_view(*self)) {
                Some(e) => r matches Err(x) && x == e,
                None => r matches Ok(o) && create_voter_weight_record_effects(
                    create_voter_weight_record_view(*self),
                    o,
                ),
            },
    {
        let accounts = &self.accounts;
        let realm = accounts.realm.address;
        let mint = accounts.governing_token_mint.address;
        let voter = accounts.voter_authority.address;

        // 1: The registrar, for this realm and mint.
        check_registrar(accounts.registrar)?;
        let reg = accounts.registrar.data.as_slice();
        if !bytes_equal_at(reg, REG_REALM, &realm) {
            return Err(ProgramError::InvalidArgument);
        }
        if !bytes_equal_at(reg, REG_GOVERNING_TOKEN_MINT, &mint) {
            return Err(ProgramError::InvalidArgument);
        }
        let reg_seeds = seeds3(&realm, &REGISTRAR_SEED, &mint);
        let _ = check_pda(&reg_seeds, &ID, &accounts.registrar.address)?;

        // 2: The record's PDA, not yet created.
        let seeds = seeds4(&VOTER_WEIGHT_RECORD_SEED, &realm, &mint, &voter);
        let bump = check_pda(&seeds, &ID, &accounts.voter_weight_record.address)?;
        if !accounts.voter_weight_record.is_data_empty() {
            return Err(ProgramError::AccountAlreadyInitialized);
        }

        // 3: An expired record of zero weight.
        let record = VoterWeightRecord {
            inner: VoterWeightRecordData {
                account_discriminator: VOTER_WEIGHT_RECORD,
                realm,
                governing_token_mint: mint,
                governing_token_owner: voter,
                voter_weight: 0,
                voter_weight_expiry: Some(0),
                weight_action: None,
                weight_action_target: None,
                reserved: [0u8; 8],
            },
        };
        let mut record_data = zero_bytes(VOTER_WEIGHT_RECORD_MAX_SIZE);
        record.write_to(record_data.as_mut_slice());

        Ok(CreateVoterWeightRecordOutcome {
            create_record: CreateAccountCpi {
                space: VOTER_WEIGHT_RECORD_MAX_SIZE as u64,
                owner: ID,
                signer_seeds: with_bump(seeds, bump),
            },
            record_data,
        })
    }
}

} // verus!
