//! `RegisterBid`: count a bidder in a live competition.

use vstd::prelude::*;
use crate::common::{MAX_PARTICIPANTS, PARTICIPANT_SEED, PHASE_ACTIVE};
use crate::competition::discriminator::{COMPETITION_STATE, PARTICIPANT_RECORD};
use crate::competition::error::{TycheCoreError, core_err, core_error};
use crate::competition::state::{
    COMPETITION_STATE_LEN, COMP_PARTICIPANT_COUNT, COMP_PHASE, NOT_WINNER,
    PARTICIPANT_RECORD_LEN, PART_BUMP, PART_COMPETITION, PART_IS_WINNER, PART_LAST_ACTION,
    PART_PARTICIPANT, comp_discriminator, comp_participant_count, comp_phase,
    part_competition, part_discriminator, part_participant,
};
use crate::layout::{
    bytes_equal_at, copy_bytes, put_bytes, put_i64, put_u32, put_u8, read_u32, read_u8,
    write_bytes, write_i64, write_u32, write_u8, zero_bytes, zeros,
};
use crate::program::{
    AccountState, Clock, CreateAccountCpi, ProgramError, check_pda, is_pda, pda_bump, seeds3,
    seeds_view, with_bump,
};

verus! {

/// Validated accounts of `RegisterBid`.
pub struct RegisterBidAccounts<'a> {
    /// The competition (writable): its participant count grows on a first bid.
    pub competition: &'a AccountState,
    /// The bidder's record PDA (writable): created or updated.
    pub participant_record: &'a AccountState,
    /// The bidder: must sign.
    pub bidder: &'a AccountState,
    /// Funds the record's rent on a first bid (signer, writable).
    pub payer: &'a AccountState,
    pub system_program: &'a AccountState,
}

/// The error that the account checks of `RegisterBid` report, if any.
pub open spec fn register_bid_accounts_error(a: Seq<AccountState>) -> Option<ProgramError> {
    if a.len() < 5 {
        Some(ProgramError::NotEnoughAccountKeys)
    } else if !a[0].is_writable {
        Some(ProgramError::InvalidAccountData)
    } else if !a[1].is_writable {
        Some(ProgramError::InvalidAccountData)
    } else if !a[2].is_signer {
        Some(ProgramError::MissingRequiredSignature)
    } else if !a[3].is_signer {
        Some(ProgramError::MissingRequiredSignature)
    } else if !a[3].is_writable {
        Some(ProgramError::InvalidAccountData)
    } else {
        None
    }
}

impl<'a> RegisterBidAccounts<'a> {
    /// Takes the first five accounts and checks them.
    pub fn try_from(accounts: &'a [AccountState]) -> (r: Result<RegisterBidAccounts<'a>, ProgramError>)
        ensures
            match register_bid_accounts_error(accounts@) {
                Some(e) => r matches Err(x) && x == e,
                None => r matches Ok(x) && {
                    &&& *x.competition == accounts@[0]
                    &&& *x.participant_record == accounts@[1]
                    &&& *x.bidder == accounts@[2]
                    &&& *x.payer == accounts@[3]
                    &&& *x.system_program == accounts@[4]
                },
            },
    {
        if accounts.len() < 5 {
            return Err(ProgramError::NotEnoughAccountKeys);
        }
        let competition = &accounts[0];
        let participant_record = &accounts[1];
        let bidder = &accounts[2];
        let payer = &accounts[3];
        let system_program = &accounts[4];
        if !competition.is_writable {
            return Err(ProgramError::InvalidAccountData);
        }
        if !participant_record.is_writable {
            return Err(ProgramError::InvalidAccountData);
        }
        if !bidder.is_signer {
            return Err(ProgramError::MissingRequiredSignature);
        }
        if !payer.is_signer {
            return Err(ProgramError::MissingRequiredSignature);
        }
        if !payer.is_writable {
            return Err(ProgramError::InvalidAccountData);
        }
        Ok(RegisterBidAccounts { competition, participant_record, bidder, payer, system_program })
    }
}

/// Instruction context of `RegisterBid` (no arguments).
pub struct RegisterBidInstruction<'a> {
    pub accounts: RegisterBidAccounts<'a>,
}

impl<'a> RegisterBidInstruction<'a> {
    /// Validates the accounts; the instruction data is not read.
    pub fn try_from(accounts: &'a [AccountState], data: &[u8]) -> (r: Result<RegisterBidInstruction<'a>, ProgramError>)
        ensures
            match register_bid_accounts_error(accounts@) {
                Some(e) => r matches Err(x) && x == e,
                None => r matches Ok(ix) && {
                    &&& *ix.accounts.competition == accounts@[0]
                    &&& *ix.accounts.participant_record == accounts@[1]
                    &&& *ix.accounts.bidder == accounts@[2]
                    &&& *ix.accounts.payer == accounts@[3]
                    &&& *ix.accounts.system_program == accounts@[4]
                },
            },
    {
        let accounts = RegisterBidAccounts::try_from(accounts)?;
        Ok(RegisterBidInstruction { accounts })
    }
}

/// The seeds of the participant record of `participant` in `competition`.
pub open spec fn participant_record_seeds(competition: Seq<u8>, participant: Seq<u8>) -> Seq<Seq<u8>> {
    seq![PARTICIPANT_SEED@, competition, participant]
}

/// The contents of the accounts of a `RegisterBid` as plain values.
pub struct RegisterBidView {
    pub competition: Seq<u8>,
    pub competition_data: Seq<u8>,
    pub record: Seq<u8>,
    pub record_data: Seq<u8>,
    pub bidder: Seq<u8>,
}

/// The plain contents of the accounts of `ix`.
pub open spec fn register_bid_view(ix: RegisterBidInstruction) -> RegisterBidView {
    RegisterBidView {
        competition: ix.accounts.competition.address@,
        competition_data: ix.accounts.competition.data@,
        record: ix.accounts.participant_record.address@,
        record_data: ix.accounts.participant_record.data@,
        bidder: ix.accounts.bidder.address@,
    }
}

/// The error that the competition and address checks of `RegisterBid` report, if any.
pub open spec fn register_bid_state_error(v: RegisterBidView, program_id: Seq<u8>) -> Option<ProgramError> {
    if comp_discriminator(v.competition_data) != COMPETITION_STATE@ {
        Some(core_err(TycheCoreError::InvalidDiscriminator))
    } else if comp_phase(v.competition_data) != PHASE_ACTIVE {
        Some(core_err(TycheCoreError::InvalidPhase))
    } else if !is_pda(participant_record_seeds(v.competition, v.bidder), program_id, v.record) {
        Some(ProgramError::InvalidSeeds)
    } else {
        None
    }
}

/// The error that `RegisterBid` reports, if any: a first bid is refused once
/// the competition has `MAX_PARTICIPANTS` participants; a repeat bid must
/// come with the bidder's own record of this competition.
pub open spec fn register_bid_error(v: RegisterBidView, program_id: Seq<u8>) -> Option<ProgramError> {
    if register_bid_state_error(v, program_id) is Some {
        register_bid_state_error(v, program_id)
    } else if v.record_data.len() == 0 {
        if comp_participant_count(v.competition_data) >= MAX_PARTICIPANTS {
            Some(core_err(TycheCoreError::ParticipantCapReached))
        } else {
            None
        }
    } else if part_discriminator(v.record_data) != PARTICIPANT_RECORD@ {
        Some(core_err(TycheCoreError::InvalidDiscriminator))
    } else if part_competition(v.record_data) != v.competition {
        Some(core_err(TycheCoreError::InvalidAccountData))
    } else if part_participant(v.record_data) != v.bidder {
        Some(core_err(TycheCoreError::InvalidAccountData))
    } else {
        None
    }
}

/// The data of a new participant record.
pub open spec fn new_record_bytes(competition: Seq<u8>, bidder: Seq<u8>, bump: u8, now: i64) -> Seq<u8> {
    let d0 = zeros(PARTICIPANT_RECORD_LEN as nat);
    let d1 = put_bytes(d0, 0, PARTICIPANT_RECORD@);
    let d2 = put_bytes(d1, PART_COMPETITION as int, competition);
    let d3 = put_bytes(d2, PART_PARTICIPANT as int, bidder);
    let d4 = put_u8(d3, PART_IS_WINNER as int, NOT_WINNER);
    let d5 = put_u8(d4, PART_BUMP as int, bump);
    put_i64(d5, PART_LAST_ACTION as int, now)
}

/// What a `RegisterBid` that passed its checks does.
pub enum RegisterBidOutcome {
    /// First bid: create the record, store `record_data` into it, then store
    /// `competition_data` (one more participant).
    FirstBid { create: CreateAccountCpi, record_data: Vec<u8>, competition_data: Vec<u8> },
    /// Repeat bid: store `record_data` (new last-action time).
    RepeatBid { record_data: Vec<u8> },
}

/// Whether `o` is the effect of a `RegisterBid` at `now` that passed its checks.
pub open spec fn register_bid_effects(v: RegisterBidView, program_id: Seq<u8>, now: i64, o: RegisterBidOutcome) -> bool {
    let seeds = participant_record_seeds(v.competition, v.bidder);
    let bump = pda_bump(seeds, program_id);
    if v.record_data.len() == 0 {
        o matches RegisterBidOutcome::FirstBid { create, record_data, competition_data } && {
            &&& create.space == PARTICIPANT_RECORD_LEN
            &&& create.owner@ == program_id
            &&& seeds_view(create.signer_seeds@) == seeds.push(seq![bump])
            &&& record_data@ == new_record_bytes(v.competition, v.bidder, bump, now)
            &&& competition_data@ == put_u32(
                v.competition_data,
                COMP_PARTICIPANT_COUNT as int,
                (comp_participant_count(v.competition_data) + 1) as u32,
            )
        }
    } else {
        o matches RegisterBidOutcome::RepeatBid { record_data } && record_data@ == put_i64(
            v.record_data,
            PART_LAST_ACTION as int,
            now,
        )
    }
}

impl<'a> RegisterBidInstruction<'a> {
    /// Checks the bid registration and describes it; `program_id` is the
    /// competition program.
    pub fn handler(&self, clock: &Clock, program_id: &[u8; 32]) -> (r: Result<RegisterBidOutcome, ProgramError>)
        requires
            self.accounts.competition.data@.len() == COMPETITION_STATE_LEN,
            register_bid_state_error(register_bid_view(*self), program_id@) is None
                && self.accounts.participant_record.data@.len() != 0
                ==> self.accounts.participant_record.data@.len() == PARTICIPANT_RECORD_LEN,
        ensures
            match register_bid_error(register_bid_view(*self), program_id@) {
                Some(e) => r matches Err(x) && x == e,
                None => r matches Ok(o) && register_bid_effects(register_bid_view(*self), program_id@, clock.unix_timestamp, o),
            },
    {
        let accounts = &self.accounts;
        let d = accounts.competition.data.as_slice();

        // 1: Only an Active competition takes bids.
        if !bytes_equal_at(d, 0, &COMPETITION_STATE) {
            return Err(core_error(TycheCoreError::InvalidDiscriminator));
        }
        if read_u8(d, COMP_PHASE) != PHASE_ACTIVE {
            return Err(core_error(TycheCoreError::InvalidPhase));
        }
        let current_participant_count = read_u32(d, COMP_PARTICIPANT_COUNT);

        // 2: The record must be the bidder's record PDA.
        let seeds = seeds3(&PARTICIPANT_SEED, &accounts.competition.address, &accounts.bidder.address);
        let bump = check_pda(&seeds, program_id, &accounts.participant_record.address)?;

        // 3: First bid or repeat bid.
        let now = clock.unix_timestamp;
        if accounts.participant_record.is_data_empty() {
            if current_participant_count >= MAX_PARTICIPANTS {
                return Err(core_error(TycheCoreError::ParticipantCapReached));
            }
            let mut record = zero_bytes(PARTICIPANT_RECORD_LEN);
            write_bytes(record.as_mut_slice(), 0, &PARTICIPANT_RECORD);
            write_bytes(record.as_mut_slice(), PART_COMPETITION, &accounts.competition.address);
            write_bytes(record.as_mut_slice(), PART_PARTICIPANT, &accounts.bidder.address);
            write_u8(record.as_mut_slice(), PART_IS_WINNER, NOT_WINNER);
            write_u8(record.as_mut_slice(), PART_BUMP, bump);
            write_i64(record.as_mut_slice(), PART_LAST_ACTION, now);
            let mut data = copy_bytes(d);
            write_u32(data.as_mut_slice(), COMP_PARTICIPANT_COUNT, current_participant_count + 1);
            Ok(RegisterBidOutcome::FirstBid {
                create: CreateAccountCpi {
                    space: PARTICIPANT_RECORD_LEN as u64,
                    owner: *program_id,
                    signer_seeds: with_bump(seeds, bump),
                },
                record_data: record,
                competition_data: data,
            })
        } else {
            let rec = accounts.participant_record.data.as_slice();
            if !bytes_equal_at(rec, 0, &PARTICIPANT_RECORD) {
                return Err(core_error(TycheCoreError::InvalidDiscriminator));
            }
            if !bytes_equal_at(rec, PART_COMPETITION, &accounts.competition.address) {
                return Err(core_error(TycheCoreError::InvalidAccountData));
            }
            if !bytes_equal_at(rec, PART_PARTICIPANT, &accounts.bidder.address) {
                return Err(core_error(TycheCoreError::InvalidAccountData));
            }
            let mut record = copy_bytes(rec);
            write_i64(record.as_mut_slice(), PART_LAST_ACTION, now);
            Ok(RegisterBidOutcome::RepeatBid { record_data: record })
        }
    }
}

} // verus!
