//! Account layouts of the competition program.

use vstd::prelude::*;
use crate::layout::{
    addr_at, bytes_at, i64_at, read_array, read_i64, read_u16, read_u32, read_u64, read_u8,
    u16_at, u32_at, u64_at, u8_at,
};

verus! {

// ── CompetitionState field offsets ───────────────────────────────────────────
pub const COMP_DISCRIMINATOR: usize = 0;
pub const COMP_ID: usize = 8;
pub const COMP_AUTHORITY: usize = 40;
pub const COMP_ASSET_TYPE: usize = 72;
pub const COMP_PHASE: usize = 73;
pub const COMP_PADDING: usize = 74;
pub const COMP_START_TIME: usize = 80;
pub const COMP_END_TIME: usize = 88;
pub const COMP_SOFT_CLOSE_WINDOW: usize = 96;
pub const COMP_SOFT_CLOSE_EXTENSION: usize = 104;
pub const COMP_SOFT_CLOSE_COUNT: usize = 112;
pub const COMP_MAX_SOFT_CLOSES: usize = 113;
pub const COMP_PADDING2: usize = 114;
pub const COMP_RESERVE_PRICE: usize = 120;
pub const COMP_PARTICIPANT_COUNT: usize = 128;
pub const COMP_BUMP: usize = 132;
pub const COMP_PADDING3: usize = 133;
pub const COMP_SETTLEMENT_REF: usize = 136;
pub const COMP_DURATION_SECS: usize = 168;
/// Size of a `CompetitionState` account.
pub const COMPETITION_STATE_LEN: usize = 176;

// ── ParticipantRecord field offsets ──────────────────────────────────────────
pub const PART_DISCRIMINATOR: usize = 0;
pub const PART_COMPETITION: usize = 8;
pub const PART_PARTICIPANT: usize = 40;
pub const PART_IS_WINNER: usize = 72;
pub const PART_BUMP: usize = 73;
pub const PART_PADDING: usize = 74;
pub const PART_LAST_ACTION: usize = 80;
/// Size of a `ParticipantRecord` account.
pub const PARTICIPANT_RECORD_LEN: usize = 88;

// ── ProtocolConfig field offsets ─────────────────────────────────────────────
pub const CFG_DISCRIMINATOR: usize = 0;
pub const CFG_AUTHORITY: usize = 8;
pub const CFG_EMERGENCY_AUTHORITY: usize = 40;
pub const CFG_TREASURY: usize = 72;
pub const CFG_CRANK_AUTHORITY: usize = 104;
pub const CFG_FEE_BASIS_POINTS: usize = 136;
pub const CFG_PAD: usize = 138;
pub const CFG_MAX_SOFT_CLOSES_CAP: usize = 140;
pub const CFG_PAD2: usize = 141;
pub const CFG_MIN_RESERVE_PRICE: usize = 144;
pub const CFG_MIN_DURATION_SECS: usize = 152;
pub const CFG_BUMP: usize = 160;
pub const CFG_PAD3: usize = 161;
/// Size of the `ProtocolConfig` account.
pub const PROTOCOL_CONFIG_LEN: usize = 168;

/// Marks the participant that won a competition.
pub const IS_WINNER: u8 = 1;
/// Marks a participant that did not win.
pub const NOT_WINNER: u8 = 0;

// ── Field views of CompetitionState data ─────────────────────────────────────
pub open spec fn comp_discriminator(d: Seq<u8>) -> Seq<u8> { bytes_at(d, COMP_DISCRIMINATOR as int, 8) }
pub open spec fn comp_id(d: Seq<u8>) -> Seq<u8> { addr_at(d, COMP_ID as int) }
pub open spec fn comp_authority(d: Seq<u8>) -> Seq<u8> { addr_at(d, COMP_AUTHORITY as int) }
pub open spec fn comp_asset_type(d: Seq<u8>) -> u8 { u8_at(d, COMP_ASSET_TYPE as int) }
pub open spec fn comp_phase(d: Seq<u8>) -> u8 { u8_at(d, COMP_PHASE as int) }
pub open spec fn comp_start_time(d: Seq<u8>) -> i64 { i64_at(d, COMP_START_TIME as int) }
pub open spec fn comp_end_time(d: Seq<u8>) -> i64 { i64_at(d, COMP_END_TIME as int) }
pub open spec fn comp_soft_close_window(d: Seq<u8>) -> i64 { i64_at(d, COMP_SOFT_CLOSE_WINDOW as int) }
pub open spec fn comp_soft_close_extension(d: Seq<u8>) -> i64 { i64_at(d, COMP_SOFT_CLOSE_EXTENSION as int) }
pub open spec fn comp_soft_close_count(d: Seq<u8>) -> u8 { u8_at(d, COMP_SOFT_CLOSE_COUNT as int) }
pub open spec fn comp_max_soft_closes(d: Seq<u8>) -> u8 { u8_at(d, COMP_MAX_SOFT_CLOSES as int) }
pub open spec fn comp_reserve_price(d: Seq<u8>) -> u64 { u64_at(d, COMP_RESERVE_PRICE as int) }
pub open spec fn comp_participant_count(d: Seq<u8>) -> u32 { u32_at(d, COMP_PARTICIPANT_COUNT as int) }
pub open spec fn comp_bump(d: Seq<u8>) -> u8 { u8_at(d, COMP_BUMP as int) }
pub open spec fn comp_settlement_ref(d: Seq<u8>) -> Seq<u8> { addr_at(d, COMP_SETTLEMENT_REF as int) }
pub open spec fn comp_duration_secs(d: Seq<u8>) -> i64 { i64_at(d, COMP_DURATION_SECS as int) }

// ── Field views of ParticipantRecord data ────────────────────────────────────
pub open spec fn part_discriminator(d: Seq<u8>) -> Seq<u8> { bytes_at(d, PART_DISCRIMINATOR as int, 8) }
pub open spec fn part_competition(d: Seq<u8>) -> Seq<u8> { addr_at(d, PART_COMPETITION as int) }
pub open spec fn part_participant(d: Seq<u8>) -> Seq<u8> { addr_at(d, PART_PARTICIPANT as int) }
pub open spec fn part_is_winner(d: Seq<u8>) -> u8 { u8_at(d, PART_IS_WINNER as int) }
pub open spec fn part_bump(d: Seq<u8>) -> u8 { u8_at(d, PART_BUMP as int) }
pub open spec fn part_last_action(d: Seq<u8>) -> i64 { i64_at(d, PART_LAST_ACTION as int) }

// ── Field views of ProtocolConfig data ───────────────────────────────────────
pub open spec fn cfg_discriminator(d: Seq<u8>) -> Seq<u8> { bytes_at(d, CFG_DISCRIMINATOR as int, 8) }
pub open spec fn cfg_authority(d: Seq<u8>) -> Seq<u8> { addr_at(d, CFG_AUTHORITY as int) }
pub open spec fn cfg_emergency_authority(d: Seq<u8>) -> Seq<u8> { addr_at(d, CFG_EMERGENCY_AUTHORITY as int) }
pub open spec fn cfg_treasury(d: Seq<u8>) -> Seq<u8> { addr_at(d, CFG_TREASURY as int) }
pub open spec fn cfg_crank_authority(d: Seq<u8>) -> Seq<u8> { addr_at(d, CFG_CRANK_AUTHORITY as int) }
pub open spec fn cfg_fee_basis_points(d: Seq<u8>) -> u16 { u16_at(d, CFG_FEE_BASIS_POINTS as int) }
pub open spec fn cfg_max_soft_closes_cap(d: Seq<u8>) -> u8 { u8_at(d, CFG_MAX_SOFT_CLOSES_CAP as int) }
pub open spec fn cfg_min_reserve_price(d: Seq<u8>) -> u64 { u64_at(d, CFG_MIN_RESERVE_PRICE as int) }
pub open spec fn cfg_min_duration_secs(d: Seq<u8>) -> i64 { i64_at(d, CFG_MIN_DURATION_SECS as int) }
pub open spec fn cfg_bump(d: Seq<u8>) -> u8 { u8_at(d, CFG_BUMP as int) }

/// On-chain state of one competition: lifecycle phase, timing, soft-close
/// parameters and the settlement reference. Seeds:
/// `[COMPETITION_SEED, authority, id]`.
pub struct CompetitionState {
    pub discriminator: [u8; 8],
    pub id: [u8; 32],
    pub authority: [u8; 32],
    pub asset_type: u8,
    pub phase: u8,
    pub _padding: [u8; 6],
    pub start_time: i64,
    pub end_time: i64,
    pub soft_close_window: i64,
    pub soft_close_extension: i64,
    pub soft_close_count: u8,
    pub max_soft_closes: u8,
    pub _padding2: [u8; 6],
    pub reserve_price: u64,
    pub participant_count: u32,
    pub bump: u8,
    pub _padding3: [u8; 3],
    pub settlement_ref: [u8; 32],
    pub duration_secs: i64,
}

impl CompetitionState {
    pub const LEN: usize = 176;

    /// Views `data` as a `CompetitionState`; `None` when its size is not `LEN`.
    pub fn from_bytes(data: &[u8]) -> (r: Option<CompetitionState>)
        ensures
            (r is Some) == (data@.len() == COMPETITION_STATE_LEN),
            r matches Some(s) ==> {
                &&& s.discriminator@ == comp_discriminator(data@)
                &&& s.id@ == comp_id(data@)
                &&& s.authority@ == comp_authority(data@)
                &&& s.asset_type == comp_asset_type(data@)
                &&& s.phase == comp_phase(data@)
                &&& s._padding@ == bytes_at(data@, COMP_PADDING as int, 6)
                &&& s.start_time == comp_start_time(data@)
                &&& s.end_time == comp_end_time(data@)
                &&& s.soft_close_window == comp_soft_close_window(data@)
                &&& s.soft_close_extension == comp_soft_close_extension(data@)
                &&& s.soft_close_count == comp_soft_close_count(data@)
                &&& s.max_soft_closes == comp_max_soft_closes(data@)
                &&& s._padding2@ == bytes_at(data@, COMP_PADDING2 as int, 6)
                &&& s.reserve_price == comp_reserve_price(data@)
                &&& s.participant_count == comp_participant_count(data@)
                &&& s.bump == comp_bump(data@)
                &&& s._padding3@ == bytes_at(data@, COMP_PADDING3 as int, 3)
                &&& s.settlement_ref@ == comp_settlement_ref(data@)
                &&& s.duration_secs == comp_duration_secs(data@)
            },
    {
        if data.len() != COMPETITION_STATE_LEN {
            return None;
        }
        Some(CompetitionState {
            discriminator: read_array::<8>(data, COMP_DISCRIMINATOR),
            id: read_array::<32>(data, COMP_ID),
            authority: read_array::<32>(data, COMP_AUTHORITY),
            asset_type: read_u8(data, COMP_ASSET_TYPE),
            phase: read_u8(data, COMP_PHASE),
            _padding: read_array::<6>(data, COMP_PADDING),
            start_time: read_i64(data, COMP_START_TIME),
            end_time: read_i64(data, COMP_END_TIME),
            soft_close_window: read_i64(data, COMP_SOFT_CLOSE_WINDOW),
            soft_close_extension: read_i64(data, COMP_SOFT_CLOSE_EXTENSION),
            soft_close_count: read_u8(data, COMP_SOFT_CLOSE_COUNT),
            max_soft_closes: read_u8(data, COMP_MAX_SOFT_CLOSES),
            _padding2: read_array::<6>(data, COMP_PADDING2),
            reserve_price: read_u64(data, COMP_RESERVE_PRICE),
            participant_count: read_u32(data, COMP_PARTICIPANT_COUNT),
            bump: read_u8(data, COMP_BUMP),
            _padding3: read_array::<3>(data, COMP_PADDING3),
            settlement_ref: read_array::<32>(data, COMP_SETTLEMENT_REF),
            duration_secs: read_i64(data, COMP_DURATION_SECS),
        })
    }
}

/// Per-bidder record of one competition, created on the bidder's first bid.
/// Seeds: `[PARTICIPANT_SEED, competition, participant]`.
pub struct ParticipantRecord {
    pub discriminator: [u8; 8],
    pub competition: [u8; 32],
    pub participant: [u8; 32],
    pub is_winner: u8,
    pub bump: u8,
    pub _padding: [u8; 6],
    pub last_action: i64,
}

impl ParticipantRecord {
    pub const LEN: usize = 88;

    pub const IS_WINNER: u8 = 1;

    pub const NOT_WINNER: u8 = 0;

    /// Views `data` as a `ParticipantRecord`; `None` when its size is not `LEN`.
    pub fn from_bytes(data: &[u8]) -> (r: Option<ParticipantRecord>)
        ensures
            (r is Some) == (data@.len() == PARTICIPANT_RECORD_LEN),
            r matches Some(s) ==> {
                &&& s.discriminator@ == part_discriminator(data@)
                &&& s.competition@ == part_competition(data@)
                &&& s.participant@ == part_participant(data@)
                &&& s.is_winner == part_is_winner(data@)
                &&& s.bump == part_bump(data@)
                &&& s._padding@ == bytes_at(data@, PART_PADDING as int, 6)
                &&& s.last_action == part_last_action(data@)
            },
    {
        if data.len() != PARTICIPANT_RECORD_LEN {
            return None;
        }
        Some(ParticipantRecord {
            discriminator: read_array::<8>(data, PART_DISCRIMINATOR),
            competition: read_array::<32>(data, PART_COMPETITION),
            participant: read_array::<32>(data, PART_PARTICIPANT),
            is_winner: read_u8(data, PART_IS_WINNER),
            bump: read_u8(data, PART_BUMP),
            _padding: read_array::<6>(data, PART_PADDING),
            last_action: read_i64(data, PART_LAST_ACTION),
        })
    }
}

/// Singleton governance account: fee, treasury, crank and the floors that
/// every new competition must meet. Seeds: `[PROTOCOL_CONFIG_SEED]`.
pub struct ProtocolConfig {
    pub discriminator: [u8; 8],
    pub authority: [u8; 32],
    pub emergency_authority: [u8; 32],
    pub treasury: [u8; 32],
    pub crank_authority: [u8; 32],
    pub fee_basis_points: u16,
    pub _pad: [u8; 2],
    pub max_soft_closes_cap: u8,
    pub _pad2: [u8; 3],
    pub min_reserve_price: u64,
    pub min_duration_secs: i64,
    pub bump: u8,
    pub _pad3: [u8; 7],
}

impl ProtocolConfig {
    pub const LEN: usize = 168;

    /// Views `data` as a `ProtocolConfig`; `None` when its size is not `LEN`.
    pub fn from_bytes(data: &[u8]) -> (r: Option<ProtocolConfig>)
        ensures
            (r is Some) == (data@.len() == PROTOCOL_CONFIG_LEN),
            r matches Some(s) ==> {
                &&& s.discriminator@ == cfg_discriminator(data@)
                &&& s.authority@ == cfg_authority(data@)
                &&& s.emergency_authority@ == cfg_emergency_authority(data@)
                &&& s.treasury@ == cfg_treasury(data@)
                &&& s.crank_authority@ == cfg_crank_authority(data@)
                &&& s.fee_basis_points == cfg_fee_basis_points(data@)
                &&& s._pad@ == bytes_at(data@, CFG_PAD as int, 2)
                &&& s.max_soft_closes_cap == cfg_max_soft_closes_cap(data@)
                &&& s._pad2@ == bytes_at(data@, CFG_PAD2 as int, 3)
                &&& s.min_reserve_price == cfg_min_reserve_price(data@)
                &&& s.min_duration_secs == cfg_min_duration_secs(data@)
                &&& s.bump == cfg_bump(data@)
                &&& s._pad3@ == bytes_at(data@, CFG_PAD3 as int, 7)
            },
    {
        if data.len() != PROTOCOL_CONFIG_LEN {
            return None;
        }
        Some(ProtocolConfig {
            discriminator: read_array::<8>(data, CFG_DISCRIMINATOR),
            authority: read_array::<32>(data, CFG_AUTHORITY),
            emergency_authority: read_array::<32>(data, CFG_EMERGENCY_AUTHORITY),
            treasury: read_array::<32>(data, CFG_TREASURY),
            crank_authority: read_array::<32>(data, CFG_CRANK_AUTHORITY),
            fee_basis_points: read_u16(data, CFG_FEE_BASIS_POINTS),
            _pad: read_array::<2>(data, CFG_PAD),
            max_soft_closes_cap: read_u8(data, CFG_MAX_SOFT_CLOSES_CAP),
            _pad2: read_array::<3>(data, CFG_PAD2),
            min_reserve_price: read_u64(data, CFG_MIN_RESERVE_PRICE),
            min_duration_secs: read_i64(data, CFG_MIN_DURATION_SECS),
            bump: read_u8(data, CFG_BUMP),
            _pad3: read_array::<7>(data, CFG_PAD3),
        })
    }
}

} // verus!
