//! End-to-end flows of the competition and escrow programs, run against a
//! small in-memory ledger that applies what each instruction's handler
//! describes (account creations, data writes, lamport movements) atomically.

use std::collections::HashMap;

use tyche::common::{
    COMPETITION_SEED, PARTICIPANT_SEED, PHASE_ACTIVE, PHASE_CANCELLED, PHASE_SCHEDULED,
    PHASE_SETTLED, PHASE_SETTLING, PROTOCOL_CONFIG_SEED,
};
use tyche::competition::error::TycheCoreError;
use tyche::competition::instruction_args::{
    CreateCompetitionArgs, InitializeProtocolConfigArgs, SettleCompetitionArgs,
};
use tyche::competition::instruction_args::ActivateCompetitionArgs;
use tyche::competition::processor::activate::ActivateCompetitionInstruction;
use tyche::competition::processor::cancel::CancelCompetitionInstruction;
use tyche::competition::processor::extend::ExtendCompetitionInstruction;
use tyche::competition::processor::create::CreateCompetitionInstruction;
use tyche::competition::processor::initialize_protocol_config::InitializeProtocolConfigInstruction;
use tyche::competition::processor::register_bid::{RegisterBidInstruction, RegisterBidOutcome};
use tyche::competition::processor::settle::SettleCompetitionInstruction;
use tyche::competition::state::{
    CompetitionState, ParticipantRecord, ProtocolConfig, COMPETITION_STATE_LEN, COMP_END_TIME,
    COMP_PHASE, PARTICIPANT_RECORD_LEN,
};
use tyche::escrow::entrypoint::{process_instruction, EscrowOutcome};
use tyche::escrow::error::TycheEscrowError;
use tyche::escrow::instruction_builder::deposit::{build_deposit, Instruction};
use tyche::escrow::instruction_builder::refund::build_refund;
use tyche::escrow::instruction_builder::release::build_release;
use tyche::escrow::state::EscrowVault;
use tyche::program::{find_program_address, AccountState, Clock, CreateAccountCpi, ProgramError};
use tyche::voter_weight::discriminator::{
    CREATE_REGISTRAR, CREATE_VOTER_WEIGHT_RECORD, MAX_VOTER_WEIGHT_RECORD, REGISTRAR,
    UPDATE_MAX_VOTER_WEIGHT_RECORD, UPDATE_VOTER_WEIGHT_RECORD, VOTER_WEIGHT_RECORD,
};
use tyche::voter_weight::entrypoint::{process_instruction as plugin_process, PluginOutcome};
use tyche::voter_weight::error::PluginError;
use tyche::voter_weight::state::registrar::Registrar;
use tyche::voter_weight::utils::pda::{MAX_VOTER_WEIGHT_RECORD_SEED, REGISTRAR_SEED, VOTER_WEIGHT_RECORD_SEED};

/// Where the competition program is deployed in these flows.
const CORE: [u8; 32] = [7u8; 32];
const SYSTEM: [u8; 32] = [0u8; 32];
const ESCROW_ID: [u8; 32] = tyche::escrow::discriminator::ID;

#[derive(Clone, Default)]
struct Acc {
    owner: [u8; 32],
    lamports: u64,
    data: Vec<u8>,
}

#[derive(Clone)]
struct Ledger {
    accs: HashMap<[u8; 32], Acc>,
    clock: Clock,
}

fn key(tag: u8, n: u8) -> [u8; 32] {
    let mut k = [0u8; 32];
    k[0] = tag;
    k[1] = n;
    k[31] = 0xA5;
    k
}

fn rent_exempt(space: u64) -> u64 {
    (space + 128) * 6960
}

impl Ledger {
    fn new() -> Ledger {
        Ledger { accs: HashMap::new(), clock: Clock { slot: 1, unix_timestamp: 0 } }
    }

    fn get(&self, k: &[u8; 32]) -> Acc {
        self.accs.get(k).cloned().unwrap_or_default()
    }

    fn airdrop(&mut self, k: [u8; 32], lamports: u64) {
        let mut a = self.get(&k);
        a.lamports += lamports;
        self.accs.insert(k, a);
    }

    fn lamports(&self, k: &[u8; 32]) -> u64 {
        self.get(k).lamports
    }

    fn data(&self, k: &[u8; 32]) -> Vec<u8> {
        self.get(k).data
    }

    fn set_data(&mut self, k: &[u8; 32], data: Vec<u8>) {
        let mut a = self.get(k);
        a.data = data;
        self.accs.insert(*k, a);
    }

    fn set_lamports(&mut self, k: &[u8; 32], lamports: u64) {
        let mut a = self.get(k);
        a.lamports = lamports;
        self.accs.insert(*k, a);
    }

    fn view(&self, metas: &[([u8; 32], bool, bool)]) -> Vec<AccountState> {
        metas
            .iter()
            .map(|(k, s, w)| {
                let a = self.get(k);
                AccountState {
                    address: *k,
                    owner: a.owner,
                    lamports: a.lamports,
                    data: a.data,
                    is_signer: *s,
                    is_writable: *w,
                }
            })
            .collect()
    }

    /// The system program's `CreateAccount`: refused when the target already
    /// holds lamports or the payer cannot fund the rent.
    fn create(&mut self, payer: &[u8; 32], to: &[u8; 32], cpi: &CreateAccountCpi) -> Result<(), ProgramError> {
        if self.lamports(to) > 0 {
            return Err(ProgramError::AccountAlreadyInitialized);
        }
        let rent = rent_exempt(cpi.space);
        let p = self.lamports(payer);
        if p < rent {
            return Err(ProgramError::Custom(1));
        }
        self.set_lamports(payer, p - rent);
        self.accs.insert(*to, Acc { owner: cpi.owner, lamports: rent, data: vec![0u8; cpi.space as usize] });
        Ok(())
    }

    fn transfer(&mut self, from: &[u8; 32], to: &[u8; 32], lamports: u64) -> Result<(), ProgramError> {
        let f = self.lamports(from);
        if f < lamports {
            return Err(ProgramError::Custom(1));
        }
        self.set_lamports(from, f - lamports);
        let t = self.lamports(to);
        self.set_lamports(to, t + lamports);
        Ok(())
    }

    /// Accounts left without lamports are removed at the end of a transaction.
    fn collect(&mut self) {
        self.accs.retain(|_, a| a.lamports > 0);
    }

    /// Runs `f` as one transaction: its changes stay only when it succeeds.
    fn atomic<T>(&mut self, f: impl FnOnce(&mut Ledger) -> Result<T, ProgramError>) -> Result<T, ProgramError> {
        let mut copy = self.clone();
        let r = f(&mut copy)?;
        copy.collect();
        *self = copy;
        Ok(r)
    }
}

// ── Competition program ──────────────────────────────────────────────────────

fn config_address() -> [u8; 32] {
    find_program_address(&vec![PROTOCOL_CONFIG_SEED.to_vec()], &CORE).unwrap().0
}

fn competition_address(authority: &[u8; 32], id: &[u8; 32]) -> [u8; 32] {
    find_program_address(&vec![COMPETITION_SEED.to_vec(), authority.to_vec(), id.to_vec()], &CORE).unwrap().0
}

fn participant_address(competition: &[u8; 32], bidder: &[u8; 32]) -> [u8; 32] {
    find_program_address(&vec![PARTICIPANT_SEED.to_vec(), competition.to_vec(), bidder.to_vec()], &CORE).unwrap().0
}

/// `InitializeProtocolConfig`: fee 2.5 %, at most 5 soft closes, reserve of
/// at least 1_000_000 lamports, at least 60 s of bidding.
fn initialize_protocol_config(l: &mut Ledger, authority: [u8; 32], treasury: [u8; 32], crank: [u8; 32]) -> [u8; 32] {
    let config = config_address();
    let args = InitializeProtocolConfigArgs {
        authority,
        emergency_authority: authority,
        treasury,
        crank_authority: crank,
        fee_basis_points: 250,
        max_soft_closes_cap: 5,
        min_reserve_price: 1_000_000,
        min_duration_secs: 60,
    };
    l.atomic(|l| {
        let accs = l.view(&[(config, false, true), (authority, true, false), (authority, true, true), (SYSTEM, false, false)]);
        let ix = InitializeProtocolConfigInstruction::try_from(&accs, &args)?;
        let o = ix.handler(&CORE)?;
        l.create(&authority, &config, &o.create)?;
        l.set_data(&config, o.config_data);
        Ok(())
    })
    .unwrap();
    config
}

fn create_args(id: [u8; 32], start_time: i64, duration_secs: i64, reserve_price: u64) -> CreateCompetitionArgs {
    CreateCompetitionArgs {
        id,
        asset_type: 0,
        start_time,
        duration_secs,
        soft_close_window: 300,
        soft_close_extension: 300,
        max_soft_closes: 5,
        reserve_price,
    }
}

fn try_create_competition(l: &mut Ledger, authority: [u8; 32], args: CreateCompetitionArgs) -> Result<[u8; 32], ProgramError> {
    let competition = competition_address(&authority, &args.id);
    let config = config_address();
    l.atomic(|l| {
        let accs = l.view(&[
            (competition, false, true),
            (authority, true, false),
            (authority, true, true),
            (SYSTEM, false, false),
            (config, false, false),
        ]);
        let ix = CreateCompetitionInstruction::try_from(&accs, &args)?;
        let clock = l.clock;
        let o = ix.handler(&clock, &CORE)?;
        l.create(&authority, &competition, &o.create)?;
        l.set_data(&competition, o.competition_data);
        Ok(competition)
    })
}

/// A Scheduled competition starting at 1, one hour long.
fn create_competition(l: &mut Ledger, authority: [u8; 32], id: [u8; 32], reserve_price: u64) -> [u8; 32] {
    try_create_competition(l, authority, create_args(id, 1, 3600, reserve_price)).unwrap()
}

/// Sets the phase (and, when not 0, the end time) directly, in place of the
/// delegation round trip that activation and closing go through.
fn force_competition_phase(l: &mut Ledger, competition: &[u8; 32], phase: u8, end_time: i64) {
    let mut d = l.data(competition);
    d[COMP_PHASE] = phase;
    if end_time != 0 {
        d[COMP_END_TIME..COMP_END_TIME + 8].copy_from_slice(&end_time.to_le_bytes());
    }
    l.set_data(competition, d);
}

fn cancel_competition(l: &mut Ledger, competition: [u8; 32], authority: [u8; 32]) -> Result<(), ProgramError> {
    let dummy = key(9, 9);
    l.atomic(|l| {
        let accs = l.view(&[
            (competition, false, true),
            (authority, true, false),
            (dummy, false, false),
            (dummy, false, false),
            (dummy, false, false),
        ]);
        let ix = CancelCompetitionInstruction::try_from(&accs, &[])?;
        assert_eq!(ix.accounts.competition.data.len(), COMPETITION_STATE_LEN);
        let o = ix.handler()?;
        l.set_data(&competition, o.competition_data);
        Ok(())
    })
}

/// `RegisterBid` for `bidder` (what the auction program does on each bid).
fn register_bid(l: &mut Ledger, competition: [u8; 32], bidder: [u8; 32]) -> Result<[u8; 32], ProgramError> {
    let record = participant_address(&competition, &bidder);
    l.atomic(|l| {
        let accs = l.view(&[
            (competition, false, true),
            (record, false, true),
            (bidder, true, false),
            (bidder, true, true),
            (SYSTEM, false, false),
        ]);
        let ix = RegisterBidInstruction::try_from(&accs, &[])?;
        let clock = l.clock;
        match ix.handler(&clock, &CORE)? {
            RegisterBidOutcome::FirstBid { create, record_data, competition_data } => {
                l.create(&bidder, &record, &create)?;
                l.set_data(&record, record_data);
                l.set_data(&competition, competition_data);
            },
            RegisterBidOutcome::RepeatBid { record_data } => l.set_data(&record, record_data),
        }
        Ok(record)
    })
}

/// `SettleCompetition` by the crank; `winner` is the zero address when
/// nobody won.
fn settle_competition(
    l: &mut Ledger,
    competition: [u8; 32],
    crank: [u8; 32],
    winner: [u8; 32],
    winner_record: [u8; 32],
) -> Result<(), ProgramError> {
    let config = config_address();
    let delegation_record = key(9, 8);
    let args = SettleCompetitionArgs { settlement_ref: key(9, 7), winner };
    l.atomic(|l| {
        let accs = l.view(&[
            (competition, false, true),
            (crank, true, false),
            (delegation_record, false, false),
            (config, false, false),
            (winner_record, false, true),
        ]);
        let ix = SettleCompetitionInstruction::try_from(&accs, &args)?;
        let o = ix.handler()?;
        l.set_data(&competition, o.competition_data);
        if let Some(w) = o.winner_record_data {
            l.set_data(&winner_record, w);
        }
        Ok(())
    })
}

// ── Escrow program ───────────────────────────────────────────────────────────

/// Runs an escrow instruction and applies its effect.
fn run_escrow(l: &mut Ledger, ix: &Instruction) -> Result<(), ProgramError> {
    assert_eq!(ix.program_id, ESCROW_ID);
    let metas: Vec<([u8; 32], bool, bool)> = ix.accounts.iter().map(|m| (m.pubkey, m.is_signer, m.is_writable)).collect();
    l.atomic(|l| {
        let accs = l.view(&metas);
        match process_instruction(&accs, &ix.data)? {
            EscrowOutcome::Deposit(o) => {
                let (vault, depositor, payer) = (metas[0].0, metas[1].0, metas[2].0);
                if let Some(c) = &o.create_vault {
                    l.create(&payer, &vault, c)?;
                }
                l.transfer(&depositor, &vault, o.transfer_lamports)?;
                l.set_data(&vault, o.vault_data);
            },
            EscrowOutcome::Release(o) => {
                let (vault, authority, depositor, treasury) = (metas[0].0, metas[1].0, metas[2].0, metas[7].0);
                l.set_data(&vault, o.vault_data);
                l.set_lamports(&vault, o.vault_lamports);
                l.set_lamports(&authority, o.authority_lamports);
                if let Some(t) = o.treasury_lamports {
                    l.set_lamports(&treasury, t);
                }
                l.set_lamports(&depositor, o.depositor_lamports);
            },
            EscrowOutcome::Refund(o) => {
                let (vault, depositor) = (metas[0].0, metas[1].0);
                l.set_data(&vault, o.vault_data);
                l.set_lamports(&vault, o.vault_lamports);
                l.set_lamports(&depositor, o.depositor_lamports);
            },
        }
        Ok(())
    })
}

fn try_deposit(l: &mut Ledger, bidder: [u8; 32], competition: [u8; 32], amount: u64) -> Result<[u8; 32], ProgramError> {
    let (ix, vault) = build_deposit(&bidder, &bidder, &competition, amount).unwrap();
    run_escrow(l, &ix)?;
    Ok(vault)
}

fn deposit(l: &mut Ledger, bidder: [u8; 32], competition: [u8; 32], amount: u64) -> [u8; 32] {
    try_deposit(l, bidder, competition, amount).unwrap()
}

fn try_refund(l: &mut Ledger, bidder: [u8; 32], competition: [u8; 32]) -> Result<[u8; 32], ProgramError> {
    let (ix, vault) = build_refund(&bidder, &competition, &CORE).unwrap();
    run_escrow(l, &ix)?;
    Ok(vault)
}

fn try_release(
    l: &mut Ledger,
    crank: [u8; 32],
    winner: [u8; 32],
    seller: [u8; 32],
    competition: [u8; 32],
    record: [u8; 32],
    treasury: [u8; 32],
) -> Result<[u8; 32], ProgramError> {
    let (ix, vault) = build_release(&winner, &seller, &crank, &competition, &record, &treasury, &CORE).unwrap();
    run_escrow(l, &ix)?;
    Ok(vault)
}

fn vault_state(l: &Ledger, vault: &[u8; 32]) -> EscrowVault {
    EscrowVault::from_bytes(&l.data(vault)).unwrap()
}

fn escrow_err(e: TycheEscrowError) -> ProgramError {
    ProgramError::from(e)
}

fn core_err(e: TycheCoreError) -> ProgramError {
    ProgramError::from(e)
}

struct Ctx {
    l: Ledger,
    authority: [u8; 32],
    crank: [u8; 32],
    treasury: [u8; 32],
    bidder1: [u8; 32],
    bidder2: [u8; 32],
    competition: [u8; 32],
}

/// Configuration and one Scheduled competition; every person has 10 SOL.
fn make_ctx(id_byte: u8) -> Ctx {
    let mut l = Ledger::new();
    let authority = key(1, id_byte);
    let crank = key(2, id_byte);
    let treasury = key(3, id_byte);
    let bidder1 = key(4, id_byte);
    let bidder2 = key(5, id_byte);
    for k in [authority, bidder1, bidder2] {
        l.airdrop(k, 10_000_000_000);
    }
    l.airdrop(treasury, 1_000_000);
    initialize_protocol_config(&mut l, authority, treasury, crank);
    let mut id = [0u8; 32];
    id[0] = id_byte;
    let competition = create_competition(&mut l, authority, id, 1_000_000);
    Ctx { l, authority, crank, treasury, bidder1, bidder2, competition }
}

/// A settled competition: `winner` deposited and bid 51_000_000, `loser`
/// 50_000_000; gives the winner's record and both vaults.
fn setup_settled(c: &mut Ctx, winner: [u8; 32], loser: [u8; 32]) -> ([u8; 32], [u8; 32], [u8; 32]) {
    force_competition_phase(&mut c.l, &c.competition, PHASE_ACTIVE, i64::MAX - 1);
    let winner_vault = deposit(&mut c.l, winner, c.competition, 51_000_000);
    let loser_vault = deposit(&mut c.l, loser, c.competition, 50_000_000);
    let winner_record = register_bid(&mut c.l, c.competition, winner).unwrap();
    register_bid(&mut c.l, c.competition, loser).unwrap();
    force_competition_phase(&mut c.l, &c.competition, PHASE_SETTLING, 0);
    settle_competition(&mut c.l, c.competition, c.crank, winner, winner_record).unwrap();
    (winner_record, winner_vault, loser_vault)
}

// ── Competition program ──────────────────────────────────────────────────────

#[test]
fn create_competition_success() {
    let c = make_ctx(1);
    let a = c.l.get(&c.competition);
    assert_eq!(a.owner, CORE);
    assert!(!a.data.is_empty());
    let s = CompetitionState::from_bytes(&a.data).unwrap();
    assert_eq!(s.phase, PHASE_SCHEDULED);
    assert_eq!(s.authority, c.authority);
    assert_eq!(s.reserve_price, 1_000_000);
    assert_eq!(s.participant_count, 0);
    assert_eq!(a.lamports, rent_exempt(COMPETITION_STATE_LEN as u64));
}

#[test]
fn create_competition_below_min_reserve_price_fails() {
    let mut c = make_ctx(2);
    let r = try_create_competition(&mut c.l, c.authority, create_args(key(8, 2), 1, 3600, 999_999));
    assert_eq!(r, Err(core_err(TycheCoreError::InvalidAccountData)));
}

#[test]
fn create_competition_below_min_duration_fails() {
    let mut c = make_ctx(3);
    let r = try_create_competition(&mut c.l, c.authority, create_args(key(8, 3), 1, 59, 1_000_000));
    assert_eq!(r, Err(core_err(TycheCoreError::InvalidAccountData)));
}

#[test]
fn create_competition_start_time_in_past_fails() {
    let mut c = make_ctx(4);
    let r = try_create_competition(&mut c.l, c.authority, create_args(key(8, 4), -1, 3600, 1_000_000));
    assert_eq!(r, Err(core_err(TycheCoreError::AuctionNotStarted)));
}

#[test]
fn create_competition_duplicate_id_fails() {
    let mut c = make_ctx(5);
    let mut id = [0u8; 32];
    id[0] = 5;
    let r = try_create_competition(&mut c.l, c.authority, create_args(id, 1, 3600, 1_000_000));
    assert_eq!(r, Err(ProgramError::AccountAlreadyInitialized));
}

#[test]
fn cancel_scheduled_competition_success() {
    let mut c = make_ctx(10);
    cancel_competition(&mut c.l, c.competition, c.authority).unwrap();
    let a = c.l.get(&c.competition);
    assert!(a.lamports > 0, "competition must still exist after cancel");
    let s = CompetitionState::from_bytes(&a.data).unwrap();
    assert_eq!(s.phase, PHASE_CANCELLED, "phase must be Cancelled");
}

#[test]
fn cancel_competition_wrong_authority_fails() {
    let mut c = make_ctx(11);
    let impostor = key(6, 11);
    c.l.airdrop(impostor, 1_000_000_000);
    let r = cancel_competition(&mut c.l, c.competition, impostor);
    assert_eq!(r, Err(core_err(TycheCoreError::NotAuthority)));
    let s = CompetitionState::from_bytes(&c.l.data(&c.competition)).unwrap();
    assert_eq!(s.phase, PHASE_SCHEDULED);
}

#[test]
fn protocol_config_initialized_correctly() {
    let c = make_ctx(12);
    let a = c.l.get(&config_address());
    assert_eq!(a.owner, CORE);
    let cfg = ProtocolConfig::from_bytes(&a.data).expect("protocol config must exist");
    assert_eq!(cfg.fee_basis_points, 250, "fee_basis_points");
    assert_eq!(cfg.max_soft_closes_cap, 5, "max_soft_closes_cap");
    assert_eq!(cfg.min_reserve_price, 1_000_000, "min_reserve_price");
    assert_eq!(cfg.min_duration_secs, 60, "min_duration_secs");
    assert_eq!(cfg.authority, c.authority);
    assert_eq!(cfg.treasury, c.treasury);
    assert_eq!(cfg.crank_authority, c.crank);
}

#[test]
fn register_bid_counts_each_bidder_once() {
    let mut c = make_ctx(13);
    force_competition_phase(&mut c.l, &c.competition, PHASE_ACTIVE, i64::MAX - 1);
    let r1 = register_bid(&mut c.l, c.competition, c.bidder1).unwrap();
    register_bid(&mut c.l, c.competition, c.bidder1).unwrap();
    register_bid(&mut c.l, c.competition, c.bidder2).unwrap();
    let s = CompetitionState::from_bytes(&c.l.data(&c.competition)).unwrap();
    assert_eq!(s.participant_count, 2);
    let rec = ParticipantRecord::from_bytes(&c.l.data(&r1)).unwrap();
    assert_eq!(rec.participant, c.bidder1);
    assert_eq!(rec.competition, c.competition);
    assert_eq!(rec.is_winner, 0);
    assert_eq!(c.l.data(&r1).len(), PARTICIPANT_RECORD_LEN);
}

#[test]
fn cancel_active_competition_with_participants_fails() {
    let mut c = make_ctx(14);
    force_competition_phase(&mut c.l, &c.competition, PHASE_ACTIVE, i64::MAX - 1);
    register_bid(&mut c.l, c.competition, c.bidder1).unwrap();
    let r = cancel_competition(&mut c.l, c.competition, c.authority);
    assert_eq!(r, Err(core_err(TycheCoreError::HasParticipants)));
}

#[test]
fn settled_competition_cannot_be_cancelled() {
    let mut c = make_ctx(15);
    let (w, lo) = (c.bidder1, c.bidder2);
    setup_settled(&mut c, w, lo);
    let r = cancel_competition(&mut c.l, c.competition, c.authority);
    assert_eq!(r, Err(core_err(TycheCoreError::InvalidPhase)));
}

// ── Escrow program ───────────────────────────────────────────────────────────

#[test]
fn deposit_creates_vault() {
    let mut c = make_ctx(20);
    force_competition_phase(&mut c.l, &c.competition, PHASE_ACTIVE, i64::MAX - 1);
    let vault = deposit(&mut c.l, c.bidder1, c.competition, 5_000_000);
    let a = c.l.get(&vault);
    assert_eq!(a.owner, ESCROW_ID);
    let s = vault_state(&c.l, &vault);
    assert_eq!(s.amount, 5_000_000, "vault.amount must equal deposited amount");
    assert_eq!(s.depositor, c.bidder1);
    assert_eq!(s.competition, c.competition);
    assert_eq!(a.lamports, rent_exempt(EscrowVault::LEN as u64) + 5_000_000);
}

#[test]
fn deposit_tops_up_existing_vault() {
    let mut c = make_ctx(21);
    force_competition_phase(&mut c.l, &c.competition, PHASE_ACTIVE, i64::MAX - 1);
    let vault = deposit(&mut c.l, c.bidder1, c.competition, 5_000_000);
    deposit(&mut c.l, c.bidder1, c.competition, 3_000_000);
    let s = vault_state(&c.l, &vault);
    assert_eq!(s.amount, 8_000_000, "vault.amount must accumulate across deposits");
    assert_eq!(c.l.lamports(&vault), rent_exempt(EscrowVault::LEN as u64) + 8_000_000);
}

#[test]
fn deposit_zero_amount_fails() {
    let mut c = make_ctx(22);
    force_competition_phase(&mut c.l, &c.competition, PHASE_ACTIVE, i64::MAX - 1);
    let r = try_deposit(&mut c.l, c.bidder1, c.competition, 0);
    assert_eq!(r, Err(escrow_err(TycheEscrowError::InvalidAmount)));
}

#[test]
fn deposit_on_non_active_competition_fails() {
    let mut c = make_ctx(23);
    let r = try_deposit(&mut c.l, c.bidder1, c.competition, 1_000_000);
    assert_eq!(r, Err(escrow_err(TycheEscrowError::InvalidPhase)));
}

#[test]
fn refund_on_cancellation() {
    let mut c = make_ctx(24);
    force_competition_phase(&mut c.l, &c.competition, PHASE_ACTIVE, i64::MAX - 1);
    let vault = deposit(&mut c.l, c.bidder1, c.competition, 10_000_000);
    force_competition_phase(&mut c.l, &c.competition, PHASE_CANCELLED, 0);
    let before = c.l.lamports(&c.bidder1);
    try_refund(&mut c.l, c.bidder1, c.competition).unwrap();
    assert_eq!(c.l.lamports(&vault), 0, "vault must be drained after refund");
    let after = c.l.lamports(&c.bidder1);
    assert!(after > before, "bidder must receive lamports back");
    assert!(after >= before + 10_000_000, "bidder must receive full deposit back");
}

#[test]
fn tyche_escrow_refund_on_active_competition_fails() {
    let mut c = make_ctx(25);
    force_competition_phase(&mut c.l, &c.competition, PHASE_ACTIVE, i64::MAX - 1);
    deposit(&mut c.l, c.bidder1, c.competition, 10_000_000);
    let r = try_refund(&mut c.l, c.bidder1, c.competition);
    assert_eq!(r, Err(escrow_err(TycheEscrowError::InvalidPhase)));
}

#[test]
fn release_winner_vault_success() {
    let mut c = make_ctx(30);
    let (w, lo) = (c.bidder1, c.bidder2);
    let (winner_record, winner_vault, _) = setup_settled(&mut c, w, lo);
    let seller_before = c.l.lamports(&c.authority);
    let treasury_before = c.l.lamports(&c.treasury);
    let winner_before = c.l.lamports(&w);
    try_release(&mut c.l, c.crank, w, c.authority, c.competition, winner_record, c.treasury).unwrap();
    assert_eq!(c.l.lamports(&winner_vault), 0, "vault drained after release");
    let seller_after = c.l.lamports(&c.authority);
    assert!(seller_after > seller_before, "seller balance must increase");
    assert_eq!(seller_after - seller_before, 49_725_000, "seller receives bid minus 2.5% fee");
    let treasury_after = c.l.lamports(&c.treasury);
    assert_eq!(treasury_after - treasury_before, 1_275_000, "treasury receives 2.5% fee");
    assert_eq!(c.l.lamports(&w) - winner_before, rent_exempt(EscrowVault::LEN as u64));
}

#[test]
fn release_wrong_vault_non_winner_fails() {
    let mut c = make_ctx(31);
    let (w, lo) = (c.bidder1, c.bidder2);
    setup_settled(&mut c, w, lo);
    let loser_record = participant_address(&c.competition, &lo);
    let r = try_release(&mut c.l, c.crank, lo, c.authority, c.competition, loser_record, c.treasury);
    assert_eq!(r, Err(escrow_err(TycheEscrowError::NotWinner)));
}

#[test]
fn refund_loser_after_settlement() {
    let mut c = make_ctx(32);
    let (w, lo) = (c.bidder1, c.bidder2);
    let (_, _, loser_vault) = setup_settled(&mut c, w, lo);
    let loser_before = c.l.lamports(&lo);
    try_refund(&mut c.l, lo, c.competition).unwrap();
    assert_eq!(c.l.lamports(&loser_vault), 0, "loser vault drained after refund");
    let loser_after = c.l.lamports(&lo);
    assert!(loser_after > loser_before, "loser must receive lamports back");
    assert!(loser_after >= loser_before + 50_000_000, "loser gets full deposit back");
}

#[test]
fn refund_winner_after_settlement_fails() {
    let mut c = make_ctx(33);
    let (w, lo) = (c.bidder1, c.bidder2);
    setup_settled(&mut c, w, lo);
    let r = try_refund(&mut c.l, w, c.competition);
    assert_eq!(r, Err(escrow_err(TycheEscrowError::WinnerCannotRefund)));
}

#[test]
fn release_by_wrong_crank_fails() {
    let mut c = make_ctx(34);
    let (w, lo) = (c.bidder1, c.bidder2);
    let (winner_record, _, _) = setup_settled(&mut c, w, lo);
    let r = try_release(&mut c.l, key(6, 34), w, c.authority, c.competition, winner_record, c.treasury);
    assert_eq!(r, Err(escrow_err(TycheEscrowError::InvalidCrankAuthority)));
}

#[test]
fn release_to_wrong_treasury_fails() {
    let mut c = make_ctx(35);
    let (w, lo) = (c.bidder1, c.bidder2);
    let (winner_record, _, _) = setup_settled(&mut c, w, lo);
    let r = try_release(&mut c.l, c.crank, w, c.authority, c.competition, winner_record, key(6, 35));
    assert_eq!(r, Err(escrow_err(TycheEscrowError::InvalidTreasury)));
}

#[test]
fn release_twice_fails() {
    let mut c = make_ctx(36);
    let (w, lo) = (c.bidder1, c.bidder2);
    let (winner_record, _, _) = setup_settled(&mut c, w, lo);
    try_release(&mut c.l, c.crank, w, c.authority, c.competition, winner_record, c.treasury).unwrap();
    let r = try_release(&mut c.l, c.crank, w, c.authority, c.competition, winner_record, c.treasury);
    assert_eq!(r, Err(ProgramError::InvalidAccountData));
}

// ── Across the programs ──────────────────────────────────────────────────────

#[test]
fn cancel_and_refund_deposits() {
    let mut c = make_ctx(50);
    force_competition_phase(&mut c.l, &c.competition, PHASE_ACTIVE, i64::MAX - 1);
    let vault1 = deposit(&mut c.l, c.bidder1, c.competition, 10_000_000);
    let vault2 = deposit(&mut c.l, c.bidder2, c.competition, 20_000_000);
    let before1 = c.l.lamports(&c.bidder1);
    let before2 = c.l.lamports(&c.bidder2);
    force_competition_phase(&mut c.l, &c.competition, PHASE_CANCELLED, 0);
    try_refund(&mut c.l, c.bidder1, c.competition).unwrap();
    try_refund(&mut c.l, c.bidder2, c.competition).unwrap();
    assert_eq!(c.l.lamports(&vault1), 0, "vault1 must be drained");
    assert_eq!(c.l.lamports(&vault2), 0, "vault2 must be drained");
    let after1 = c.l.lamports(&c.bidder1);
    let after2 = c.l.lamports(&c.bidder2);
    assert!(after1 >= before1 + 10_000_000, "bidder1 must receive at least the deposited amount back");
    assert!(after2 >= before2 + 20_000_000, "bidder2 must receive at least the deposited amount back");
}

#[test]
fn double_refund_fails() {
    let mut c = make_ctx(51);
    force_competition_phase(&mut c.l, &c.competition, PHASE_ACTIVE, i64::MAX - 1);
    deposit(&mut c.l, c.bidder1, c.competition, 10_000_000);
    force_competition_phase(&mut c.l, &c.competition, PHASE_CANCELLED, 0);
    try_refund(&mut c.l, c.bidder1, c.competition).unwrap();
    let r = try_refund(&mut c.l, c.bidder1, c.competition);
    assert!(r.is_err());
}

#[test]
fn integration_refund_on_active_competition_fails() {
    let mut c = make_ctx(52);
    force_competition_phase(&mut c.l, &c.competition, PHASE_ACTIVE, i64::MAX - 1);
    deposit(&mut c.l, c.bidder1, c.competition, 5_000_000);
    let r = try_refund(&mut c.l, c.bidder1, c.competition);
    assert!(r.is_err());
}

#[test]
fn no_winner_finalization_settles_competition() {
    let mut c = make_ctx(55);
    force_competition_phase(&mut c.l, &c.competition, PHASE_SETTLING, 0);
    settle_competition(&mut c.l, c.competition, c.crank, [0u8; 32], [0u8; 32]).unwrap();
    let a = c.l.get(&c.competition);
    assert!(a.lamports > 0, "competition must still exist after no-winner finalization");
    let s = CompetitionState::from_bytes(&a.data).unwrap();
    assert_eq!(s.phase, PHASE_SETTLED, "competition must be Settled after no-winner finalization");
}

#[test]
fn no_bid_depositor_refunds_on_cancelled_path() {
    let mut c = make_ctx(56);
    force_competition_phase(&mut c.l, &c.competition, PHASE_ACTIVE, i64::MAX - 1);
    let vault = deposit(&mut c.l, c.bidder1, c.competition, 8_000_000);
    let before = c.l.lamports(&c.bidder1);
    force_competition_phase(&mut c.l, &c.competition, PHASE_CANCELLED, 0);
    try_refund(&mut c.l, c.bidder1, c.competition).unwrap();
    assert_eq!(c.l.lamports(&vault), 0, "vault must be drained");
    let after = c.l.lamports(&c.bidder1);
    assert!(after >= before + 8_000_000, "depositor must receive at least their deposit back");
}

#[test]
fn escrow_flows_conserve_lamports() {
    let mut c = make_ctx(57);
    let total = |l: &Ledger| -> u128 { l.accs.values().map(|a| a.lamports as u128).sum() };
    let (w, lo) = (c.bidder1, c.bidder2);
    let (winner_record, _, _) = setup_settled(&mut c, w, lo);
    let before = total(&c.l);
    try_release(&mut c.l, c.crank, w, c.authority, c.competition, winner_record, c.treasury).unwrap();
    try_refund(&mut c.l, lo, c.competition).unwrap();
    assert_eq!(total(&c.l), before);
}

// ── Voter-weight plugin ──────────────────────────────────────────────────────

const PLUGIN_ID: [u8; 32] = tyche::voter_weight::discriminator::ID;

fn run_plugin(l: &mut Ledger, metas: &[([u8; 32], bool, bool)], data: &[u8]) -> Result<(), ProgramError> {
    l.atomic(|l| {
        let accs = l.view(metas);
        let clock = l.clock;
        match plugin_process(&accs, data, &clock)? {
            PluginOutcome::CreateRegistrar(o) => {
                let payer = metas[4].0;
                l.create(&payer, &metas[0].0, &o.create_registrar)?;
                l.set_data(&metas[0].0, o.registrar_data);
                if let Some(m) = o.max_voter_weight_record {
                    l.create(&payer, &metas[6].0, &m.create)?;
                    l.set_data(&metas[6].0, m.data);
                }
            },
            PluginOutcome::CreateVoterWeightRecord(o) => {
                l.create(&metas[5].0, &metas[0].0, &o.create_record)?;
                l.set_data(&metas[0].0, o.record_data);
            },
            PluginOutcome::UpdateVoterWeightRecord(d) => l.set_data(&metas[0].0, d),
            PluginOutcome::UpdateMaxVoterWeightRecord(d) => l.set_data(&metas[0].0, d),
        }
        Ok(())
    })
}

struct Gov {
    realm: [u8; 32],
    mint: [u8; 32],
    registrar: [u8; 32],
    max_record: [u8; 32],
}

fn registrar_address(realm: &[u8; 32], mint: &[u8; 32]) -> [u8; 32] {
    find_program_address(&vec![realm.to_vec(), REGISTRAR_SEED.to_vec(), mint.to_vec()], &PLUGIN_ID).unwrap().0
}

fn max_record_address(realm: &[u8; 32], mint: &[u8; 32]) -> [u8; 32] {
    find_program_address(&vec![realm.to_vec(), MAX_VOTER_WEIGHT_RECORD_SEED.to_vec(), mint.to_vec()], &PLUGIN_ID).unwrap().0
}

fn voter_record_address(realm: &[u8; 32], mint: &[u8; 32], voter: &[u8; 32]) -> [u8; 32] {
    find_program_address(
        &vec![VOTER_WEIGHT_RECORD_SEED.to_vec(), realm.to_vec(), mint.to_vec(), voter.to_vec()],
        &PLUGIN_ID,
    )
    .unwrap()
    .0
}

const GOVERNANCE: [u8; 32] = [11u8; 32];

/// A realm account of the governance program: `council` says whether it has
/// a council mint, `authority` is its authority, if any.
fn realm_bytes(council: bool, authority: Option<[u8; 32]>) -> Vec<u8> {
    let mut d = vec![0u8; 58];
    d[0] = 16;
    if council {
        d.push(1);
        d.extend_from_slice(&key(12, 9));
    } else {
        d.push(0);
    }
    d.extend_from_slice(&[0u8; 8]);
    match authority {
        Some(a) => {
            d.push(1);
            d.extend_from_slice(&a);
        },
        None => d.push(0),
    }
    d.extend_from_slice(&[4, 0, 0, 0]);
    d.extend_from_slice(b"dao!");
    d.extend_from_slice(&[0u8; 128]);
    d
}

fn put_realm(l: &mut Ledger, realm: [u8; 32], owner: [u8; 32], data: Vec<u8>) {
    l.accs.insert(realm, Acc { owner, lamports: 1_000_000, data });
}

fn try_create_registrar_with(
    l: &mut Ledger,
    signer: [u8; 32],
    competition: [u8; 32],
    gov: &Gov,
    with_max_record: bool,
) -> Result<(), ProgramError> {
    let mut data = CREATE_REGISTRAR.to_vec();
    data.extend_from_slice(&GOVERNANCE);
    data.extend_from_slice(&competition);
    data.extend_from_slice(&ESCROW_ID);
    let mut metas = vec![
        (gov.registrar, false, true),
        (gov.realm, false, false),
        (gov.mint, false, false),
        (signer, true, false),
        (signer, true, true),
        (SYSTEM, false, false),
    ];
    if with_max_record {
        metas.push((gov.max_record, false, true));
    }
    run_plugin(l, &metas, &data)
}

fn try_create_registrar(l: &mut Ledger, realm_authority: [u8; 32], competition: [u8; 32], gov: &Gov) -> Result<(), ProgramError> {
    try_create_registrar_with(l, realm_authority, competition, gov, true)
}

fn new_gov(n: u8) -> Gov {
    let realm = key(12, n);
    let mint = key(12, n + 100);
    Gov { realm, mint, registrar: registrar_address(&realm, &mint), max_record: max_record_address(&realm, &mint) }
}

fn setup_gov(c: &mut Ctx) -> Gov {
    let gov = new_gov(1);
    put_realm(&mut c.l, gov.realm, GOVERNANCE, realm_bytes(false, Some(c.authority)));
    let competition = c.competition;
    try_create_registrar(&mut c.l, c.authority, competition, &gov).unwrap();
    gov
}

fn try_create_voter_record(l: &mut Ledger, gov: &Gov, voter: [u8; 32]) -> Result<[u8; 32], ProgramError> {
    let record = voter_record_address(&gov.realm, &gov.mint, &voter);
    run_plugin(
        l,
        &[
            (record, false, true),
            (gov.registrar, false, false),
            (gov.realm, false, false),
            (gov.mint, false, false),
            (voter, true, false),
            (voter, true, true),
            (SYSTEM, false, false),
        ],
        &CREATE_VOTER_WEIGHT_RECORD,
    )?;
    Ok(record)
}

fn try_update_voter_record(
    l: &mut Ledger,
    gov: &Gov,
    voter: [u8; 32],
    vault: [u8; 32],
    proposal: [u8; 32],
    args: &[u8],
) -> Result<(), ProgramError> {
    let record = voter_record_address(&gov.realm, &gov.mint, &voter);
    let mut data = UPDATE_VOTER_WEIGHT_RECORD.to_vec();
    data.extend_from_slice(args);
    run_plugin(
        l,
        &[
            (record, false, true),
            (gov.registrar, false, false),
            (vault, false, false),
            (voter, true, false),
            (proposal, false, false),
        ],
        &data,
    )
}

fn u64_le(d: &[u8], off: usize) -> u64 {
    u64::from_le_bytes(d[off..off + 8].try_into().unwrap())
}

fn plugin_err(e: PluginError) -> ProgramError {
    ProgramError::from(e)
}

#[test]
fn create_registrar_writes_configuration_and_max_record() {
    let mut c = make_ctx(60);
    let gov = setup_gov(&mut c);
    let reg = c.l.get(&gov.registrar);
    assert_eq!(reg.owner, PLUGIN_ID);
    assert_eq!(reg.data.len(), Registrar::LEN);
    let r = Registrar::from_bytes(&reg.data).unwrap();
    assert_eq!(r.discriminator, REGISTRAR);
    assert_eq!(r.governance_program_id, GOVERNANCE);
    assert_eq!(r.realm, gov.realm);
    assert_eq!(r.governing_token_mint, gov.mint);
    assert_eq!(r.competition, c.competition);
    assert_eq!(r.tyche_escrow_program_id, ESCROW_ID);
    assert_eq!(r.has_prev_plugin, 0);
    assert_eq!(r.prev_plugin_program_id, [0u8; 32]);
    assert_eq!(r.reserved, [0u8; 128]);
    let m = c.l.data(&gov.max_record);
    assert_eq!(m.len(), 97);
    assert_eq!(&m[0..8], &MAX_VOTER_WEIGHT_RECORD);
    assert_eq!(&m[8..40], &gov.realm);
    assert_eq!(&m[40..72], &gov.mint);
    assert_eq!(u64_le(&m, 72), u64::MAX);
    assert_eq!(m[80], 0, "no expiry before the first update");
}

#[test]
fn create_registrar_twice_fails() {
    let mut c = make_ctx(61);
    let gov = setup_gov(&mut c);
    let competition = c.competition;
    let r = try_create_registrar(&mut c.l, c.authority, competition, &gov);
    assert_eq!(r, Err(plugin_err(PluginError::InvalidRegistrar)));
}

#[test]
fn voter_weight_is_the_escrowed_amount() {
    let mut c = make_ctx(62);
    force_competition_phase(&mut c.l, &c.competition, PHASE_ACTIVE, i64::MAX - 1);
    let vault = deposit(&mut c.l, c.bidder1, c.competition, 5_000_000);
    let gov = setup_gov(&mut c);
    let record = try_create_voter_record(&mut c.l, &gov, c.bidder1).unwrap();

    let d = c.l.data(&record);
    assert_eq!(d.len(), 164);
    assert_eq!(&d[0..8], &VOTER_WEIGHT_RECORD);
    assert_eq!(&d[72..104], &c.bidder1);
    assert_eq!(u64_le(&d, 104), 0, "a new record has no weight");
    assert_eq!(d[112], 1);
    assert_eq!(u64_le(&d, 113), 0, "a new record is expired");
    assert_eq!(d[121], 0);
    assert_eq!(d[122], 0);

    c.l.clock.slot = 42;
    let proposal = key(13, 1);
    try_update_voter_record(&mut c.l, &gov, c.bidder1, vault, proposal, &[]).unwrap();
    let d = c.l.data(&record);
    assert_eq!(u64_le(&d, 104), 5_000_000, "voter_weight is the vault amount");
    assert_eq!(d[112], 1);
    assert_eq!(u64_le(&d, 113), 42, "expiry is the current slot");
    assert_eq!(d[121], 1);
    assert_eq!(d[122], 0, "CastVote by default");
    assert_eq!(d[123], 1);
    assert_eq!(&d[124..156], &proposal);
    assert_eq!(&d[156..164], &[0u8; 8]);

    deposit(&mut c.l, c.bidder1, c.competition, 3_000_000);
    c.l.clock.slot = 43;
    try_update_voter_record(&mut c.l, &gov, c.bidder1, vault, proposal, &[3]).unwrap();
    let d = c.l.data(&record);
    assert_eq!(u64_le(&d, 104), 8_000_000);
    assert_eq!(u64_le(&d, 113), 43);
    assert_eq!(d[122], 3, "CreateProposal");
}

#[test]
fn create_voter_weight_record_twice_fails() {
    let mut c = make_ctx(63);
    let gov = setup_gov(&mut c);
    try_create_voter_record(&mut c.l, &gov, c.bidder1).unwrap();
    let r = try_create_voter_record(&mut c.l, &gov, c.bidder1);
    assert_eq!(r, Err(ProgramError::AccountAlreadyInitialized));
}

#[test]
fn update_with_another_voters_vault_fails() {
    let mut c = make_ctx(64);
    force_competition_phase(&mut c.l, &c.competition, PHASE_ACTIVE, i64::MAX - 1);
    let vault2 = deposit(&mut c.l, c.bidder2, c.competition, 5_000_000);
    let gov = setup_gov(&mut c);
    try_create_voter_record(&mut c.l, &gov, c.bidder1).unwrap();
    let r = try_update_voter_record(&mut c.l, &gov, c.bidder1, vault2, key(13, 2), &[]);
    assert_eq!(r, Err(plugin_err(PluginError::WrongDepositor)));
}

#[test]
fn update_with_vault_of_another_competition_fails() {
    let mut c = make_ctx(65);
    let mut id = [0u8; 32];
    id[0] = 0xEE;
    let other = create_competition(&mut c.l, c.authority, id, 1_000_000);
    force_competition_phase(&mut c.l, &other, PHASE_ACTIVE, i64::MAX - 1);
    let vault = deposit(&mut c.l, c.bidder1, other, 5_000_000);
    let gov = setup_gov(&mut c);
    try_create_voter_record(&mut c.l, &gov, c.bidder1).unwrap();
    let r = try_update_voter_record(&mut c.l, &gov, c.bidder1, vault, key(13, 3), &[]);
    assert_eq!(r, Err(plugin_err(PluginError::WrongCompetition)));
}

#[test]
fn update_with_vault_not_owned_by_escrow_fails() {
    let mut c = make_ctx(66);
    let gov = setup_gov(&mut c);
    try_create_voter_record(&mut c.l, &gov, c.bidder1).unwrap();
    let fake = key(14, 1);
    c.l.accs.insert(fake, Acc { owner: key(14, 2), lamports: 1, data: vec![0u8; 88] });
    let r = try_update_voter_record(&mut c.l, &gov, c.bidder1, fake, key(13, 4), &[]);
    assert_eq!(r, Err(ProgramError::InvalidAccountOwner));
}

#[test]
fn update_with_short_vault_fails() {
    let mut c = make_ctx(67);
    let gov = setup_gov(&mut c);
    try_create_voter_record(&mut c.l, &gov, c.bidder1).unwrap();
    let fake = key(14, 3);
    c.l.accs.insert(fake, Acc { owner: ESCROW_ID, lamports: 1, data: vec![0u8; 79] });
    let r = try_update_voter_record(&mut c.l, &gov, c.bidder1, fake, key(13, 5), &[]);
    assert_eq!(r, Err(plugin_err(PluginError::InvalidVaultData)));
}

#[test]
fn update_with_unknown_action_fails() {
    let mut c = make_ctx(68);
    force_competition_phase(&mut c.l, &c.competition, PHASE_ACTIVE, i64::MAX - 1);
    let vault = deposit(&mut c.l, c.bidder1, c.competition, 5_000_000);
    let gov = setup_gov(&mut c);
    try_create_voter_record(&mut c.l, &gov, c.bidder1).unwrap();
    let r = try_update_voter_record(&mut c.l, &gov, c.bidder1, vault, key(13, 6), &[5]);
    assert_eq!(r, Err(ProgramError::InvalidInstructionData));
}

#[test]
fn update_max_voter_weight_record_stamps_slot() {
    let mut c = make_ctx(69);
    let gov = setup_gov(&mut c);
    c.l.clock.slot = 777;
    run_plugin(&mut c.l, &[(gov.max_record, false, true), (gov.registrar, false, false)], &UPDATE_MAX_VOTER_WEIGHT_RECORD).unwrap();
    let m = c.l.data(&gov.max_record);
    assert_eq!(u64_le(&m, 72), u64::MAX);
    assert_eq!(m[80], 1);
    assert_eq!(u64_le(&m, 81), 777);
}

#[test]
fn update_max_voter_weight_record_with_wrong_account_fails() {
    let mut c = make_ctx(70);
    let gov = setup_gov(&mut c);
    let r = run_plugin(&mut c.l, &[(gov.registrar, false, true), (gov.registrar, false, false)], &UPDATE_MAX_VOTER_WEIGHT_RECORD);
    assert_eq!(r, Err(ProgramError::InvalidSeeds));
}

#[test]
fn plugin_rejects_unknown_or_short_instruction_data() {
    let mut c = make_ctx(71);
    let gov = setup_gov(&mut c);
    let metas = [(gov.max_record, false, true), (gov.registrar, false, false)];
    assert_eq!(run_plugin(&mut c.l, &metas, &[1, 2, 3]), Err(ProgramError::InvalidInstructionData));
    assert_eq!(run_plugin(&mut c.l, &metas, &[0u8; 8]), Err(ProgramError::InvalidInstructionData));
}

#[test]
fn create_registrar_by_non_authority_fails() {
    let mut c = make_ctx(72);
    let gov = new_gov(2);
    put_realm(&mut c.l, gov.realm, GOVERNANCE, realm_bytes(false, Some(c.authority)));
    let impostor = c.bidder1;
    let competition = c.competition;
    let r = try_create_registrar(&mut c.l, impostor, competition, &gov);
    assert_eq!(r, Err(ProgramError::IncorrectAuthority));
    assert_eq!(c.l.lamports(&gov.registrar), 0, "no registrar is created");
}

#[test]
fn create_registrar_for_realm_without_authority_fails() {
    let mut c = make_ctx(73);
    let gov = new_gov(3);
    put_realm(&mut c.l, gov.realm, GOVERNANCE, realm_bytes(false, None));
    let competition = c.competition;
    let r = try_create_registrar(&mut c.l, c.authority, competition, &gov);
    assert_eq!(r, Err(ProgramError::IncorrectAuthority));
}

#[test]
fn create_registrar_realm_not_owned_by_governance_fails() {
    let mut c = make_ctx(74);
    let gov = new_gov(4);
    put_realm(&mut c.l, gov.realm, key(11, 2), realm_bytes(false, Some(c.authority)));
    let competition = c.competition;
    let r = try_create_registrar(&mut c.l, c.authority, competition, &gov);
    assert_eq!(r, Err(ProgramError::InvalidAccountOwner));
}

#[test]
fn create_registrar_malformed_realm_fails() {
    let mut c = make_ctx(75);
    let gov = new_gov(5);
    put_realm(&mut c.l, gov.realm, GOVERNANCE, vec![0u8; 40]);
    let competition = c.competition;
    let r = try_create_registrar(&mut c.l, c.authority, competition, &gov);
    assert_eq!(r, Err(ProgramError::InvalidAccountData));
}

#[test]
fn create_registrar_realm_with_council_mint() {
    let mut c = make_ctx(76);
    let gov = new_gov(6);
    put_realm(&mut c.l, gov.realm, GOVERNANCE, realm_bytes(true, Some(c.authority)));
    let competition = c.competition;
    try_create_registrar(&mut c.l, c.authority, competition, &gov).unwrap();
    assert_eq!(c.l.data(&gov.registrar).len(), Registrar::LEN);
}

#[test]
fn create_registrar_with_the_six_documented_accounts() {
    let mut c = make_ctx(77);
    let gov = new_gov(7);
    put_realm(&mut c.l, gov.realm, GOVERNANCE, realm_bytes(false, Some(c.authority)));
    let competition = c.competition;
    try_create_registrar_with(&mut c.l, c.authority, competition, &gov, false).unwrap();
    assert_eq!(c.l.data(&gov.registrar).len(), Registrar::LEN);
    assert_eq!(c.l.lamports(&gov.max_record), 0, "no max-voter-weight record without the seventh account");
    let r = try_create_registrar_with(&mut c.l, c.authority, competition, &gov, false);
    assert_eq!(r, Err(plugin_err(PluginError::InvalidRegistrar)));
}

#[test]
fn deposit_overflow_fails() {
    let mut c = make_ctx(26);
    force_competition_phase(&mut c.l, &c.competition, PHASE_ACTIVE, i64::MAX - 1);
    let vault = deposit(&mut c.l, c.bidder1, c.competition, 5_000_000);
    let mut d = c.l.data(&vault);
    d[72..80].copy_from_slice(&(u64::MAX - 1).to_le_bytes());
    c.l.set_data(&vault, d);
    let r = try_deposit(&mut c.l, c.bidder1, c.competition, 5);
    assert_eq!(r, Err(escrow_err(TycheEscrowError::ArithmeticOverflow)));
}

fn activate(l: &mut Ledger, competition: [u8; 32], authority: [u8; 32], permission: [u8; 32]) -> Result<(bool, bool, Vec<[u8; 32]>, [u8; 32]), ProgramError> {
    let perm_program = key(15, 1);
    let validator = key(15, 2);
    let args = ActivateCompetitionArgs { commit_frequency_ms: 30_000 };
    let mut metas = vec![(competition, false, true), (authority, true, false), (authority, true, true), (permission, false, true)];
    for k in 3..7u8 {
        metas.push((key(15, k), false, true));
    }
    metas.push((perm_program, false, false));
    metas.push((SYSTEM, false, false));
    metas.push((validator, false, false));
    metas.push((key(15, 9), false, false));
    l.atomic(|l| {
        let accs = l.view(&metas);
        let ix = ActivateCompetitionInstruction::try_from(&accs, &args)?;
        assert_eq!(ix.accounts.competition.data.len(), COMPETITION_STATE_LEN);
        let clock = l.clock;
        let o = ix.handler(&clock)?;
        assert_eq!(o.commit_frequency_ms, 30_000);
        l.set_data(&competition, o.competition_data);
        Ok((o.create_permission, o.delegate_permission, o.permission_members, o.validator))
    })
}

#[test]
fn first_activation_creates_and_delegates_the_permission() {
    let mut c = make_ctx(80);
    c.l.clock.unix_timestamp = 10;
    let (create, delegate, members, validator) = activate(&mut c.l, c.competition, c.authority, key(15, 20)).unwrap();
    assert!(create);
    assert!(delegate, "the permission created here is delegated too");
    assert_eq!(members, vec![c.authority]);
    assert_eq!(validator, key(15, 2));
    let s = CompetitionState::from_bytes(&c.l.data(&c.competition)).unwrap();
    assert_eq!(s.phase, PHASE_ACTIVE);
    assert_eq!(s.end_time, 10 + 3600);
}

#[test]
fn activation_delegates_an_existing_permission_only_while_undelegated() {
    let mut c = make_ctx(81);
    c.l.clock.unix_timestamp = 10;
    let permission = key(15, 21);
    c.l.accs.insert(permission, Acc { owner: key(15, 30), lamports: 5, data: vec![] });
    let (create, delegate, _, _) = activate(&mut c.l, c.competition, c.authority, permission).unwrap();
    assert!(!create);
    assert!(!delegate);

    let mut c = make_ctx(82);
    c.l.clock.unix_timestamp = 10;
    c.l.accs.insert(permission, Acc { owner: key(15, 1), lamports: 5, data: vec![] });
    let (create, delegate, _, _) = activate(&mut c.l, c.competition, c.authority, permission).unwrap();
    assert!(!create);
    assert!(delegate);
}

fn extend(l: &mut Ledger, competition: [u8; 32], crank: [u8; 32]) -> Result<(), ProgramError> {
    let config = config_address();
    l.atomic(|l| {
        let accs = l.view(&[(competition, false, true), (crank, true, false), (key(9, 1), false, false), (key(9, 2), false, false), (config, false, false)]);
        let ix = ExtendCompetitionInstruction::try_from(&accs, &[])?;
        let clock = l.clock;
        let o = ix.handler(&clock)?;
        l.set_data(&competition, o.competition_data);
        Ok(())
    })
}

#[test]
fn soft_closes_stop_at_the_cap() {
    let mut c = make_ctx(83);
    force_competition_phase(&mut c.l, &c.competition, PHASE_ACTIVE, 1_000);
    c.l.clock.unix_timestamp = 100;
    assert_eq!(extend(&mut c.l, c.competition, c.crank), Err(ProgramError::from(TycheCoreError::SoftCloseNotArmed)));
    assert_eq!(extend(&mut c.l, c.competition, key(6, 83)), Err(ProgramError::from(TycheCoreError::InvalidCrankAuthority)));
    let mut accepted = 0;
    for _ in 0..8 {
        let end = CompetitionState::from_bytes(&c.l.data(&c.competition)).unwrap().end_time;
        c.l.clock.unix_timestamp = end - 100;
        if extend(&mut c.l, c.competition, c.crank).is_ok() {
            accepted += 1;
        }
    }
    let s = CompetitionState::from_bytes(&c.l.data(&c.competition)).unwrap();
    assert_eq!(accepted, 5);
    assert_eq!(s.soft_close_count, 5);
    assert_eq!(s.end_time, 1_000 + 5 * 300);
    assert_eq!(extend(&mut c.l, c.competition, c.crank), Err(ProgramError::from(TycheCoreError::SoftCloseCapReached)));
}
