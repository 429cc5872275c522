//! `ActivateCompetition`: open the bidding window and hand the competition to
//! the private rollup.

use vstd::prelude::*;
use crate::common::{COMPETITION_SEED, PHASE_ACTIVE, PHASE_SCHEDULED};
use crate::competition::discriminator::COMPETITION_STATE;
use crate::competition::error::{TycheCoreError, core_err, core_error};
use crate::competition::instruction_args::ActivateCompetitionArgs;
use crate::competition::processor::create::competition_seeds;
use crate::competition::state::{
    COMPETITION_STATE_LEN, COMP_AUTHORITY, COMP_BUMP, COMP_DURATION_SECS, COMP_END_TIME, COMP_ID,
    COMP_PHASE, COMP_START_TIME, comp_authority, comp_bump, comp_discriminator,
    comp_duration_secs, comp_id, comp_phase, comp_start_time,
};
use crate::layout::{
    address_eq, bytes_equal_at, copy_bytes, put_i64, put_u8, read_array, read_i64, read_u8,
    write_i64, write_u8,
};
use crate::program::{AccountState, Clock, ProgramError, seeds3, seeds_view, with_bump};

verus! {

/// Validated accounts of `ActivateCompetition`.
pub struct ActivateCompetitionAccounts<'a> {
    /// The competition (writable, initialized).
    pub competition: &'a AccountState,
    /// The competition authority: must sign.
    pub authority: &'a AccountState,
    /// Funds the permission account (signer, writable).
    pub payer: &'a AccountState,
    pub permission: &'a AccountState,
    pub delegation_buffer: &'a AccountState,
    pub delegation_record: &'a AccountState,
    pub delegation_metadata: &'a AccountState,
    pub delegation_program: &'a AccountState,
    pub permission_program: &'a AccountState,
    pub system_program: &'a AccountState,
    pub validator: &'a AccountState,
}

/// The error that the account checks of `ActivateCompetition` report, if any.
/// The instruction takes exactly twelve accounts.
pub open spec fn activate_accounts_error(a: Seq<AccountState>) -> Option<ProgramError> {
    if a.len() != 12 {
        Some(ProgramError::NotEnoughAccountKeys)
    } else if !a[0].is_writable {
        Some(ProgramError::InvalidAccountData)
    } else if a[0].data@.len() == 0 {
        Some(ProgramError::UninitializedAccount)
    } else if !a[1].is_signer {
        Some(ProgramError::MissingRequiredSignature)
    } else if !a[2].is_signer {
        Some(ProgramError::MissingRequiredSignature)
    } else if !a[2].is_writable {
        Some(ProgramError::InvalidAccountData)
    } else {
        None
    }
}

impl<'a> ActivateCompetitionAccounts<'a> {
    /// Takes exactly twelve accounts and checks them.
    pub fn try_from(accounts: &'a [AccountState]) -> (r: Result<ActivateCompetitionAccounts<'a>, ProgramError>)
        ensures
            match activate_accounts_error(accounts@) {
                Some(e) => r matches Err(x) && x == e,
                None => r matches Ok(x) && {
                    &&& *x.competition == accounts@[0]
                    &&& *x.authority == accounts@[1]
                    &&& *x.payer == accounts@[2]
                    &&& *x.permission == accounts@[3]
                    &&& *x.delegation_buffer == accounts@[4]
                    &&& *x.delegation_record == accounts@[5]
                    &&& *x.delegation_metadata == accounts@[6]
                    &&& *x.delegation_program == accounts@[7]
                    &&& *x.permission_program == accounts@[8]
                    &&& *x.system_program == accounts@[9]
                    &&& *x.validator == accounts@[10]
                },
            },
    {
        if accounts.len() != 12 {
            return Err(ProgramError::NotEnoughAccountKeys);
        }
        let competition = &accounts[0];
        let authority = &accounts[1];
        let payer = &accounts[2];
        if !competition.is_writable {
            return Err(ProgramError::InvalidAccountData);
        }
        if competition.is_data_empty() {
            return Err(ProgramError::UninitializedAccount);
        }
        if !authority.is_signer {
            return Err(ProgramError::MissingRequiredSignature);
        }
        if !payer.is_signer {
            return Err(ProgramError::MissingRequiredSignature);
        }
        if !payer.is_writable {
            return Err(ProgramError::InvalidAccountData);
        }
        Ok(ActivateCompetitionAccounts {
            competition,
            authority,
            payer,
            permission: &accounts[3],
            delegation_buffer: &accounts[4],
            delegation_record: &accounts[5],
            delegation_metadata: &accounts[6],
            delegation_program: &accounts[7],
            permission_program: &accounts[8],
            system_program: &accounts[9],
            validator: &accounts[10],
        })
    }
}

/// Instruction context of `ActivateCompetition`.
pub struct ActivateCompetitionInstruction<'a> {
    pub accounts: ActivateCompetitionAccounts<'a>,
    pub args: &'a ActivateCompetitionArgs,
}

impl<'a> ActivateCompetitionInstruction<'a> {
    /// Validates the accounts and binds the arguments.
    pub fn try_from(accounts: &'a [AccountState], args: &'a ActivateCompetitionArgs) -> (r: Result<ActivateCompetitionInstruction<'a>, ProgramError>)
        ensures
            match activate_accounts_error(accounts@) {
                Some(e) => r matches Err(x) && x == e,
                None => r matches Ok(ix) && {
                    &&& *ix.accounts.competition == accounts@[0]
                    &&& *ix.accounts.authority == accounts@[1]
                    &&& *ix.accounts.payer == accounts@[2]
                    &&& *ix.accounts.permission == accounts@[3]
                    &&& *ix.accounts.permission_program == accounts@[8]
                    &&& *ix.args == *args
                },
            },
    {
        let accounts = ActivateCompetitionAccounts::try_from(accounts)?;
        Ok(ActivateCompetitionInstruction { accounts, args })
    }
}

/// The error that `ActivateCompetition` reports for a competition `d`
/// activated by `authority` at `now`, if any.
pub open spec fn activate_error(d: Seq<u8>, authority: Seq<u8>, now: i64) -> Option<ProgramError> {
    if comp_discriminator(d) != COMPETITION_STATE@ {
        Some(core_err(TycheCoreError::InvalidDiscriminator))
    } else if comp_phase(d) != PHASE_SCHEDULED {
        Some(core_err(TycheCoreError::InvalidPhase))
    } else if comp_authority(d) != authority {
        Some(core_err(TycheCoreError::NotAuthority))
    } else if now < comp_start_time(d) {
        Some(core_err(TycheCoreError::AuctionNotStarted))
    } else if now + comp_duration_secs(d) > i64::MAX || now + comp_duration_secs(d) < i64::MIN {
        Some(core_err(TycheCoreError::ArithmeticOverflow))
    } else {
        None
    }
}

/// The competition data after activation at `now`: Active, ending
/// `duration_secs` after the activation.
pub open spec fn activated_bytes(d: Seq<u8>, now: i64) -> Seq<u8> {
    put_i64(put_u8(d, COMP_PHASE as int, PHASE_ACTIVE), COMP_END_TIME as int, (now + comp_duration_secs(d)) as i64)
}

/// What an `ActivateCompetition` that passed its checks does, in order:
/// store `competition_data`; when `create_permission`, create the
/// competition's permission account with `permission_members` as its
/// members; when `delegate_permission` (the permission account is, after
/// that creation, owned by the permission program), delegate it to
/// `validator`; delegate the competition (signing with `signer_seeds`) to
/// `validator`, committing every `commit_frequency_ms`.
pub struct ActivateCompetitionOutcome {
    pub competition_data: Vec<u8>,
    pub create_permission: bool,
    pub permission_members: Vec<[u8; 32]>,
    pub delegate_permission: bool,
    pub signer_seeds: Vec<Vec<u8>>,
    pub validator: [u8; 32],
    pub commit_frequency_ms: u32,
}

/// The addresses that an activation reads besides the competition: the
/// permission account's lamports and owner, the permission program and the
/// validator the competition is delegated to.
pub struct ActivateView {
    pub permission_lamports: u64,
    pub permission_owner: Seq<u8>,
    pub permission_program: Seq<u8>,
    pub validator: Seq<u8>,
}

/// The plain view of the delegation accounts of `ix`.
pub open spec fn activate_view(ix: ActivateCompetitionInstruction) -> ActivateView {
    ActivateView {
        permission_lamports: ix.accounts.permission.lamports,
        permission_owner: ix.accounts.permission.owner@,
        permission_program: ix.accounts.permission_program.address@,
        validator: ix.accounts.validator.address@,
    }
}

/// Whether `o` is the effect of an `ActivateCompetition` that passed its
/// checks: the competition's authority is the permission's only member, and
/// both accounts go to the given validator.
pub open spec fn activate_effects(
    d: Seq<u8>,
    now: i64,
    v: ActivateView,
    args: ActivateCompetitionArgs,
    o: ActivateCompetitionOutcome,
) -> bool {
    &&& o.competition_data@ == activated_bytes(d, now)
    &&& o.create_permission == (v.permission_lamports == 0)
    &&& o.permission_members@.len() == 1
    &&& o.permission_members@[0]@ == comp_authority(d)
    &&& o.delegate_permission == (v.permission_lamports == 0 || v.permission_owner == v.permission_program)
    &&& seeds_view(o.signer_seeds@) == competition_seeds(comp_authority(d), comp_id(d)).push(seq![comp_bump(d)])
    &&& o.validator@ == v.validator
    &&& o.commit_frequency_ms == args.commit_frequency_ms
}

impl<'a> ActivateCompetitionInstruction<'a> {
    /// Checks the activation and describes it; the window is `duration_secs`
    /// long from the moment of activation.
    pub fn handler(&self, clock: &Clock) -> (r: Result<ActivateCompetitionOutcome, ProgramError>)
        requires
            self.accounts.competition.data@.len() == COMPETITION_STATE_LEN,
        ensures
            match activate_error(self.accounts.competition.data@, self.accounts.authority.address@, clock.unix_timestamp) {
                Some(e) => r matches Err(x) && x == e,
                None => r matches Ok(o) && activate_effects(
                    self.accounts.competition.data@,
                    clock.unix_timestamp,
                    activate_view(*self),
                    *self.args,
                    o,
                ),
            },
    {
        let accounts = &self.accounts;
        let d = accounts.competition.data.as_slice();

        // 1-3: Discriminator, phase, authority.
        if !bytes_equal_at(d, 0, &COMPETITION_STATE) {
            return Err(core_error(TycheCoreError::InvalidDiscriminator));
        }
        if read_u8(d, COMP_PHASE) != PHASE_SCHEDULED {
            return Err(core_error(TycheCoreError::InvalidPhase));
        }
        if !bytes_equal_at(d, COMP_AUTHORITY, &accounts.authority.address) {
            return Err(core_error(TycheCoreError::NotAuthority));
        }

        // 4: Activation only at or after the start time.
        let now = clock.unix_timestamp;
        if now < read_i64(d, COMP_START_TIME) {
            return Err(core_error(TycheCoreError::AuctionNotStarted));
        }

        // 5: The window ends `duration_secs` after activation.
        let end_time = match now.checked_add(read_i64(d, COMP_DURATION_SECS)) {
            Some(e) => e,
            None => return Err(core_error(TycheCoreError::ArithmeticOverflow)),
        };

        // 6: Transition to Active.
        let mut data = copy_bytes(d);
        write_u8(data.as_mut_slice(), COMP_PHASE, PHASE_ACTIVE);
        write_i64(data.as_mut_slice(), COMP_END_TIME, end_time);

        // Seeds that sign for the competition PDA in the delegation calls.
        let authority = read_array::<32>(d, COMP_AUTHORITY);
        let id = read_array::<32>(d, COMP_ID);
        let bump = read_u8(d, COMP_BUMP);
        let seeds = with_bump(seeds3(&COMPETITION_SEED, &authority, &id), bump);

        // The competition's authority is the permission's only member.
        let mut members: Vec<[u8; 32]> = Vec::new();
        members.push(authority);

        // A permission account created here is owned by the permission
        // program, so it is delegated too.
        let create_permission = accounts.permission.lamports == 0;

        Ok(ActivateCompetitionOutcome {
            competition_data: data,
            create_permission,
            permission_members: members,
            delegate_permission: create_permission || Self::delegate_permission(&accounts.permission.owner, &accounts.permission_program.address),
            signer_seeds: seeds,
            validator: accounts.validator.address,
            commit_frequency_ms: self.args.commit_frequency_ms,
        })
    }

    /// Whether an existing permission account still has to be delegated: it
    /// is while the permission program owns it.
    pub fn delegate_permission(permission_owner: &[u8; 32], permission_program: &[u8; 32]) -> (r: bool)
        ensures
            r == (permission_owner@ == permission_program@),
    {
        address_eq(permission_owner, permission_program)
    }
}

} // verus!
