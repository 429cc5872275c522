//! `CreateCompetition`: create a competition in the Scheduled phase.

use vstd::prelude::*;
use crate::common::{AssetType, COMPETITION_SEED, PHASE_SCHEDULED, is_asset_type};
use crate::competition::discriminator::{COMPETITION_STATE, PROTOCOL_CONFIG};
use crate::competition::error::{TycheCoreError, core_err, core_error};
use crate::competition::instruction_args::CreateCompetitionArgs;
use crate::competition::state::{
    CFG_MAX_SOFT_CLOSES_CAP, CFG_MIN_DURATION_SECS, CFG_MIN_RESERVE_PRICE, COMPETITION_STATE_LEN,
    COMP_ASSET_TYPE, COMP_AUTHORITY, COMP_BUMP, COMP_DURATION_SECS, COMP_END_TIME, COMP_ID,
    COMP_MAX_SOFT_CLOSES, COMP_PARTICIPANT_COUNT, COMP_PHASE, COMP_RESERVE_PRICE,
    COMP_SOFT_CLOSE_COUNT, COMP_SOFT_CLOSE_EXTENSION, COMP_SOFT_CLOSE_WINDOW, COMP_START_TIME,
    PROTOCOL_CONFIG_LEN, cfg_discriminator, cfg_max_soft_closes_cap, cfg_min_duration_secs,
    cfg_min_reserve_price,
};
use crate::layout::{
    bytes_equal_at, put_bytes, put_i64, put_u32, put_u64, put_u8, read_i64, read_u64, read_u8,
    write_bytes, write_i64, write_u32, write_u64, write_u8, zero_bytes, zeros,
};
use crate::program::{
    AccountState, Clock, CreateAccountCpi, ProgramError, check_pda, is_pda, pda_bump, seeds3,
    seeds_view, with_bump,
};

verus! {

/// Validated accounts of `CreateCompetition`.
pub struct CreateCompetitionAccounts<'a> {
    /// The competition PDA to create (writable, empty).
    pub competition: &'a AccountState,
    /// The creator: signs and becomes the competition authority.
    pub authority: &'a AccountState,
    /// Funds the account's rent.
    pub payer: &'a AccountState,
    pub system_program: &'a AccountState,
    /// The protocol configuration whose floors the competition must meet.
    pub protocol_config: &'a AccountState,
}

/// The error that the account checks of `CreateCompetition` report, if any.
pub open spec fn create_accounts_error(a: Seq<AccountState>) -> Option<ProgramError> {
    if a.len() < 5 {
        Some(ProgramError::NotEnoughAccountKeys)
    } else if !a[0].is_writable {
        Some(ProgramError::InvalidAccountData)
    } else if a[0].data@.len() != 0 {
        Some(ProgramError::AccountAlreadyInitialized)
    } else if !a[1].is_signer {
        Some(ProgramError::MissingRequiredSignature)
    } else if !a[2].is_signer {
        Some(ProgramError::MissingRequiredSignature)
    } else {
        None
    }
}

impl<'a> CreateCompetitionAccounts<'a> {
    /// Takes the first five accounts and checks them.
    pub fn try_from(accounts: &'a [AccountState]) -> (r: Result<CreateCompetitionAccounts<'a>, ProgramError>)
        ensures
            match create_accounts_error(accounts@) {
                Some(e) => r matches Err(x) && x == e,
                None => r matches Ok(x) && {
                    &&& *x.competition == accounts@[0]
                    &&& *x.authority == accounts@[1]
                    &&& *x.payer == accounts@[2]
                    &&& *x.system_program == accounts@[3]
                    &&& *x.protocol_config == accounts@[4]
                },
            },
    {
        if accounts.len() < 5 {
            return Err(ProgramError::NotEnoughAccountKeys);
        }
        let competition = &accounts[0];
        let authority = &accounts[1];
        let payer = &accounts[2];
        let system_program = &accounts[3];
        let protocol_config = &accounts[4];
        if !competition.is_writable {
            return Err(ProgramError::InvalidAccountData);
        }
        if !competition.is_data_empty() {
            return Err(ProgramError::AccountAlreadyInitialized);
        }
        if !authority.is_signer {
            return Err(ProgramError::MissingRequiredSignature);
        }
        if !payer.is_signer {
            return Err(ProgramError::MissingRequiredSignature);
        }
        Ok(CreateCompetitionAccounts { competition, authority, payer, system_program, protocol_config })
    }
}

/// Instruction context of `CreateCompetition`.
pub struct CreateCompetitionInstruction<'a> {
    pub accounts: CreateCompetitionAccounts<'a>,
    pub args: &'a CreateCompetitionArgs,
}

impl<'a> CreateCompetitionInstruction<'a> {
    /// Validates the accounts and binds the arguments.
    pub fn try_from(accounts: &'a [AccountState], args: &'a CreateCompetitionArgs) -> (r: Result<CreateCompetitionInstruction<'a>, ProgramError>)
        ensures
            match create_accounts_error(accounts@) {
                Some(e) => r matches Err(x) && x == e,
                None => r matches Ok(ix) && {
                    &&& *ix.accounts.competition == accounts@[0]
                    &&& *ix.accounts.authority == accounts@[1]
                    &&& *ix.accounts.payer == accounts@[2]
                    &&& *ix.accounts.system_program == accounts@[3]
                    &&& *ix.accounts.protocol_config == accounts@[4]
                    &&& *ix.args == *args
                },
            },
    {
        let accounts = CreateCompetitionAccounts::try_from(accounts)?;
        Ok(CreateCompetitionInstruction { accounts, args })
    }
}

/// The seeds of the competition `id` of `authority`.
pub open spec fn competition_seeds(authority: Seq<u8>, id: Seq<u8>) -> Seq<Seq<u8>> {
    seq![COMPETITION_SEED@, authority, id]
}

/// The error that `CreateCompetition` reports, if any.
pub open spec fn create_error(
    competition: Seq<u8>,
    authority: Seq<u8>,
    config: Seq<u8>,
    args: CreateCompetitionArgs,
    now: i64,
    program_id: Seq<u8>,
) -> Option<ProgramError> {
    if !is_asset_type(args.asset_type) {
        Some(core_err(TycheCoreError::InvalidAccountData))
    } else if config.len() != PROTOCOL_CONFIG_LEN {
        Some(ProgramError::InvalidAccountData)
    } else if cfg_discriminator(config) != PROTOCOL_CONFIG@ {
        Some(core_err(TycheCoreError::InvalidDiscriminator))
    } else if args.reserve_price < cfg_min_reserve_price(config) {
        Some(core_err(TycheCoreError::InvalidAccountData))
    } else if args.duration_secs < cfg_min_duration_secs(config) {
        Some(core_err(TycheCoreError::InvalidAccountData))
    } else if args.soft_close_window < 0 || args.soft_close_extension < 0 {
        Some(core_err(TycheCoreError::InvalidAccountData))
    } else if args.max_soft_closes > cfg_max_soft_closes_cap(config) {
        Some(core_err(TycheCoreError::InvalidAccountData))
    } else if args.start_time < now {
        Some(core_err(TycheCoreError::AuctionNotStarted))
    } else if !is_pda(competition_seeds(authority, args.id@), program_id, competition) {
        Some(ProgramError::InvalidSeeds)
    } else {
        None
    }
}

/// The data of a new competition in the Scheduled phase.
pub open spec fn new_competition_bytes(args: CreateCompetitionArgs, authority: Seq<u8>, bump: u8) -> Seq<u8> {
    let d0 = zeros(COMPETITION_STATE_LEN as nat);
    let d1 = put_bytes(d0, 0, COMPETITION_STATE@);
    let d2 = put_bytes(d1, COMP_ID as int, args.id@);
    let d3 = put_bytes(d2, COMP_AUTHORITY as int, authority);
    let d4 = put_u8(d3, COMP_ASSET_TYPE as int, args.asset_type);
    let d5 = put_u8(d4, COMP_PHASE as int, PHASE_SCHEDULED);
    let d6 = put_i64(d5, COMP_START_TIME as int, args.start_time);
    let d7 = put_i64(d6, COMP_END_TIME as int, 0);
    let d8 = put_i64(d7, COMP_DURATION_SECS as int, args.duration_secs);
    let d9 = put_i64(d8, COMP_SOFT_CLOSE_WINDOW as int, args.soft_close_window);
    let d10 = put_i64(d9, COMP_SOFT_CLOSE_EXTENSION as int, args.soft_close_extension);
    let d11 = put_u8(d10, COMP_SOFT_CLOSE_COUNT as int, 0);
    let d12 = put_u8(d11, COMP_MAX_SOFT_CLOSES as int, args.max_soft_closes);
    let d13 = put_u64(d12, COMP_RESERVE_PRICE as int, args.reserve_price);
    let d14 = put_u32(d13, COMP_PARTICIPANT_COUNT as int, 0);
    put_u8(d14, COMP_BUMP as int, bump)
}

/// What a `CreateCompetition` that passed its checks does, in order: create
/// the competition account, then store `competition_data` into it.
pub struct CreateCompetitionOutcome {
    pub create: CreateAccountCpi,
    pub competition_data: Vec<u8>,
}

/// Whether `o` is the effect of a `CreateCompetition` that passed its checks.
pub open spec fn create_effects(
    authority: Seq<u8>,
    args: CreateCompetitionArgs,
    program_id: Seq<u8>,
    o: CreateCompetitionOutcome,
) -> bool {
    let seeds = competition_seeds(authority, args.id@);
    let bump = pda_bump(seeds, program_id);
    &&& o.create.space == COMPETITION_STATE_LEN
    &&& o.create.owner@ == program_id
    &&& seeds_view(o.create.signer_seeds@) == seeds.push(seq![bump])
    &&& o.competition_data@ == new_competition_bytes(args, authority, bump)
}

/// The data of a new competition in the Scheduled phase.
fn new_competition_data(args: &CreateCompetitionArgs, authority: &[u8; 32], bump: u8) -> (v: Vec<u8>)
    ensures
        v@ == new_competition_bytes(*args, authority@, bump),
{
    let mut v = zero_bytes(COMPETITION_STATE_LEN);
    write_bytes(v.as_mut_slice(), 0, &COMPETITION_STATE);
    write_bytes(v.as_mut_slice(), COMP_ID, &args.id);
    write_bytes(v.as_mut_slice(), COMP_AUTHORITY, authority);
    write_u8(v.as_mut_slice(), COMP_ASSET_TYPE, args.asset_type);
    write_u8(v.as_mut_slice(), COMP_PHASE, PHASE_SCHEDULED);
    write_i64(v.as_mut_slice(), COMP_START_TIME, args.start_time);
    write_i64(v.as_mut_slice(), COMP_END_TIME, 0);
    write_i64(v.as_mut_slice(), COMP_DURATION_SECS, args.duration_secs);
    write_i64(v.as_mut_slice(), COMP_SOFT_CLOSE_WINDOW, args.soft_close_window);
    write_i64(v.as_mut_slice(), COMP_SOFT_CLOSE_EXTENSION, args.soft_close_extension);
    write_u8(v.as_mut_slice(), COMP_SOFT_CLOSE_COUNT, 0);
    write_u8(v.as_mut_slice(), COMP_MAX_SOFT_CLOSES, args.max_soft_closes);
    write_u64(v.as_mut_slice(), COMP_RESERVE_PRICE, args.reserve_price);
    write_u32(v.as_mut_slice(), COMP_PARTICIPANT_COUNT, 0);
    write_u8(v.as_mut_slice(), COMP_BUMP, bump);
    v
}

impl<'a> CreateCompetitionInstruction<'a> {
    /// Checks the new competition against the protocol floors and the clock
    /// and describes its creation; `program_id` is the competition program.
    pub fn handler(&self, clock: &Clock, program_id: &[u8; 32]) -> (r: Result<CreateCompetitionOutcome, ProgramError>)
        ensures
            match create_error(
                self.accounts.competition.address@,
                self.accounts.authority.address@,
                self.accounts.protocol_config.data@,
                *self.args,
                clock.unix_timestamp,
                program_id@,
            ) {
                Some(e) => r matches Err(x) && x == e,
                None => r matches Ok(o) && create_effects(self.accounts.authority.address@, *self.args, program_id@, o),
            },
    {
        let accounts = &self.accounts;
        let args = self.args;

        // 1: The asset type must be a known variant.
        if AssetType::try_from_primitive(args.asset_type).is_none() {
            return Err(core_error(TycheCoreError::InvalidAccountData));
        }

        // 2: Read the protocol floors.
        let cfg = accounts.protocol_config.data.as_slice();
        if cfg.len() != PROTOCOL_CONFIG_LEN {
            return Err(ProgramError::InvalidAccountData);
        }
        if !bytes_equal_at(cfg, 0, &PROTOCOL_CONFIG) {
            return Err(core_error(TycheCoreError::InvalidDiscriminator));
        }
        let min_reserve_price = read_u64(cfg, CFG_MIN_RESERVE_PRICE);
        let min_duration_secs = read_i64(cfg, CFG_MIN_DURATION_SECS);
        let max_soft_closes_cap = read_u8(cfg, CFG_MAX_SOFT_CLOSES_CAP);

        // 3-6: Parameters must meet the floors and the cap.
        if args.reserve_price < min_reserve_price {
            return Err(core_error(TycheCoreError::InvalidAccountData));
        }
        if args.duration_secs < min_duration_secs {
            return Err(core_error(TycheCoreError::InvalidAccountData));
        }
        if args.soft_close_window < 0 || args.soft_close_extension < 0 {
            return Err(core_error(TycheCoreError::InvalidAccountData));
        }
        if args.max_soft_closes > max_soft_closes_cap {
            return Err(core_error(TycheCoreError::InvalidAccountData));
        }

        // 7: The start time must not be in the past.
        if args.start_time < clock.unix_timestamp {
            return Err(core_error(TycheCoreError::AuctionNotStarted));
        }

        // 8: The competition account must be its PDA.
        let seeds = seeds3(&COMPETITION_SEED, &accounts.authority.address, &args.id);
        let bump = check_pda(&seeds, program_id, &accounts.competition.address)?;

        // 9-10: Create and initialize.
        let competition_data = new_competition_data(args, &accounts.authority.address, bump);
        Ok(CreateCompetitionOutcome {
            create: CreateAccountCpi {
                space: COMPETITION_STATE_LEN as u64,
                owner: *program_id,
                signer_seeds: with_bump(seeds, bump),
            },
            competition_data,
        })
    }
}

} // verus!
