//! What the competition program's writes store: every field of a created or
//! updated account reads back as the argument, address or time it came from,
//! and the fields an instruction does not touch keep their values.

use vstd::prelude::*;
use vstd::bytes::{spec_u16_to_le_bytes, spec_u32_to_le_bytes, spec_u64_to_le_bytes};
use crate::common::PHASE_SCHEDULED;
use crate::competition::discriminator::{COMPETITION_STATE, PARTICIPANT_RECORD, PROTOCOL_CONFIG};
use crate::competition::instruction_args::{
    CreateCompetitionArgs, InitializeProtocolConfigArgs, UpdateProtocolConfigArgs,
};
use crate::competition::processor::create::{
    CreateCompetitionOutcome, competition_seeds, create_effects,
};
use crate::competition::processor::initialize_protocol_config::new_config_bytes;
use crate::competition::processor::register_bid::{
    RegisterBidOutcome, RegisterBidView, participant_record_seeds, register_bid_effects,
};
use crate::competition::processor::update_protocol_config::updated_config_bytes;
use crate::competition::state::{
    CFG_AUTHORITY, CFG_BUMP, CFG_CRANK_AUTHORITY, CFG_EMERGENCY_AUTHORITY, CFG_FEE_BASIS_POINTS,
    CFG_MAX_SOFT_CLOSES_CAP, CFG_MIN_DURATION_SECS, CFG_MIN_RESERVE_PRICE, CFG_TREASURY,
    COMPETITION_STATE_LEN, COMP_ASSET_TYPE, COMP_AUTHORITY, COMP_BUMP, COMP_DURATION_SECS,
    COMP_END_TIME, COMP_ID, COMP_MAX_SOFT_CLOSES, COMP_PARTICIPANT_COUNT, COMP_PHASE,
    COMP_RESERVE_PRICE, COMP_SOFT_CLOSE_COUNT, COMP_SOFT_CLOSE_EXTENSION, COMP_SOFT_CLOSE_WINDOW,
    COMP_START_TIME, NOT_WINNER, PARTICIPANT_RECORD_LEN, PART_BUMP, PART_COMPETITION,
    PART_IS_WINNER, PART_LAST_ACTION, PART_PARTICIPANT, PROTOCOL_CONFIG_LEN, cfg_authority,
    cfg_bump, cfg_crank_authority, cfg_discriminator, cfg_emergency_authority,
    cfg_fee_basis_points, cfg_max_soft_closes_cap, cfg_min_duration_secs, cfg_min_reserve_price,
    cfg_treasury, comp_asset_type, comp_authority, comp_bump, comp_discriminator,
    comp_duration_secs, comp_end_time, comp_id, comp_max_soft_closes, comp_participant_count,
    comp_phase, comp_reserve_price, comp_soft_close_count, comp_soft_close_extension,
    comp_soft_close_window, comp_start_time, part_bump, part_competition, part_discriminator,
    part_is_winner, part_last_action, part_participant,
};
use crate::layout::{
    bytes_at, lemma_i64_bits, lemma_le_widths, lemma_put_bytes_index, lemma_u64_at_encoding,
    put_bytes, put_i64, put_u16, put_u32, put_u64, put_u8, zeros,
};
use crate::program::pda_bump;

verus! {

/// A new competition stores its arguments: each field reads back as the
/// argument it came from (the soft-close window as the window, the
/// extension as the extension), the authority as the creator, in the
/// Scheduled phase with no end time, no soft closes and no participants yet.
pub proof fn law_create_stores_arguments(
    authority: Seq<u8>,
    args: CreateCompetitionArgs,
    program_id: Seq<u8>,
    o: CreateCompetitionOutcome,
)
    requires
        authority.len() == 32,
        create_effects(authority, args, program_id, o),
    ensures
        ({
            let d = o.competition_data@;
            &&& d.len() == COMPETITION_STATE_LEN
            &&& comp_discriminator(d) == COMPETITION_STATE@
            &&& comp_id(d) == args.id@
            &&& comp_authority(d) == authority
            &&& comp_asset_type(d) == args.asset_type
            &&& comp_phase(d) == PHASE_SCHEDULED
            &&& comp_start_time(d) == args.start_time
            &&& comp_end_time(d) == 0
            &&& comp_duration_secs(d) == args.duration_secs
            &&& comp_soft_close_window(d) == args.soft_close_window
            &&& comp_soft_close_extension(d) == args.soft_close_extension
            &&& comp_soft_close_count(d) == 0
            &&& comp_max_soft_closes(d) == args.max_soft_closes
            &&& comp_reserve_price(d) == args.reserve_price
            &&& comp_participant_count(d) == 0
            &&& comp_bump(d) == pda_bump(competition_seeds(authority, args.id@), program_id)
        }),
{
    let bump = pda_bump(competition_seeds(authority, args.id@), program_id);
    let e_start = spec_u64_to_le_bytes(args.start_time as u64);
    let e_end = spec_u64_to_le_bytes(0u64);
    let e_dur = spec_u64_to_le_bytes(args.duration_secs as u64);
    let e_win = spec_u64_to_le_bytes(args.soft_close_window as u64);
    let e_ext = spec_u64_to_le_bytes(args.soft_close_extension as u64);
    let e_res = spec_u64_to_le_bytes(args.reserve_price);
    let e_cnt = spec_u32_to_le_bytes(0u32);
    lemma_le_widths(0, 0, args.start_time as u64);
    lemma_le_widths(0, 0, 0);
    lemma_le_widths(0, 0, args.duration_secs as u64);
    lemma_le_widths(0, 0, args.soft_close_window as u64);
    lemma_le_widths(0, 0, args.soft_close_extension as u64);
    lemma_le_widths(0, 0, args.reserve_price);
    let d0 = zeros(COMPETITION_STATE_LEN as nat);
    let d1 = put_bytes(d0, 0, COMPETITION_STATE@);
    let d2 = put_bytes(d1, COMP_ID as int, args.id@);
    let d3 = put_bytes(d2, COMP_AUTHORITY as int, authority);
    let d4 = put_u8(d3, COMP_ASSET_TYPE as int, args.asset_type);
    let d5 = put_u8(d4, COMP_PHASE as int, PHASE_SCHEDULED);
    let d6 = put_bytes(d5, COMP_START_TIME as int, e_start);
    let d7 = put_bytes(d6, COMP_END_TIME as int, e_end);
    let d8 = put_bytes(d7, COMP_DURATION_SECS as int, e_dur);
    let d9 = put_bytes(d8, COMP_SOFT_CLOSE_WINDOW as int, e_win);
    let d10 = put_bytes(d9, COMP_SOFT_CLOSE_EXTENSION as int, e_ext);
    let d11 = put_u8(d10, COMP_SOFT_CLOSE_COUNT as int, 0);
    let d12 = put_u8(d11, COMP_MAX_SOFT_CLOSES as int, args.max_soft_closes);
    let d13 = put_bytes(d12, COMP_RESERVE_PRICE as int, e_res);
    let d14 = put_bytes(d13, COMP_PARTICIPANT_COUNT as int, e_cnt);
    let d = put_u8(d14, COMP_BUMP as int, bump);
    lemma_put_bytes_index(d0, 0, COMPETITION_STATE@);
    lemma_put_bytes_index(d1, COMP_ID as int, args.id@);
    lemma_put_bytes_index(d2, COMP_AUTHORITY as int, authority);
    lemma_put_bytes_index(d5, COMP_START_TIME as int, e_start);
    lemma_put_bytes_index(d6, COMP_END_TIME as int, e_end);
    lemma_put_bytes_index(d7, COMP_DURATION_SECS as int, e_dur);
    lemma_put_bytes_index(d8, COMP_SOFT_CLOSE_WINDOW as int, e_win);
    lemma_put_bytes_index(d9, COMP_SOFT_CLOSE_EXTENSION as int, e_ext);
    lemma_put_bytes_index(d12, COMP_RESERVE_PRICE as int, e_res);
    lemma_put_bytes_index(d13, COMP_PARTICIPANT_COUNT as int, e_cnt);
    assert(d == o.competition_data@);
    assert(comp_discriminator(d) =~= COMPETITION_STATE@);
    assert(comp_id(d) =~= args.id@);
    assert(comp_authority(d) =~= authority);
    assert(bytes_at(d, COMP_START_TIME as int, 8) =~= e_start);
    lemma_u64_at_encoding(d, COMP_START_TIME as int, args.start_time as u64);
    lemma_i64_bits(args.start_time);
    assert(bytes_at(d, COMP_END_TIME as int, 8) =~= e_end);
    lemma_u64_at_encoding(d, COMP_END_TIME as int, 0);
    assert(bytes_at(d, COMP_DURATION_SECS as int, 8) =~= e_dur);
    lemma_u64_at_encoding(d, COMP_DURATION_SECS as int, args.duration_secs as u64);
    lemma_i64_bits(args.duration_secs);
    assert(bytes_at(d, COMP_SOFT_CLOSE_WINDOW as int, 8) =~= e_win);
    lemma_u64_at_encoding(d, COMP_SOFT_CLOSE_WINDOW as int, args.soft_close_window as u64);
    lemma_i64_bits(args.soft_close_window);
    assert(bytes_at(d, COMP_SOFT_CLOSE_EXTENSION as int, 8) =~= e_ext);
    lemma_u64_at_encoding(d, COMP_SOFT_CLOSE_EXTENSION as int, args.soft_close_extension as u64);
    lemma_i64_bits(args.soft_close_extension);
    assert(bytes_at(d, COMP_RESERVE_PRICE as int, 8) =~= e_res);
    lemma_u64_at_encoding(d, COMP_RESERVE_PRICE as int, args.reserve_price);
    assert(bytes_at(d, COMP_PARTICIPANT_COUNT as int, 4) =~= e_cnt);
    lemma_le_widths(0, 0u32, 0);
}

/// A new protocol configuration stores its arguments: each field reads back
/// as the argument it came from (the authority as the authority, the
/// emergency authority as the emergency authority).
pub proof fn law_init_config_stores_arguments(args: InitializeProtocolConfigArgs, bump: u8)
    ensures
        ({
            let d = new_config_bytes(args, bump);
            &&& d.len() == PROTOCOL_CONFIG_LEN
            &&& cfg_discriminator(d) == PROTOCOL_CONFIG@
            &&& cfg_authority(d) == args.authority@
            &&& cfg_emergency_authority(d) == args.emergency_authority@
            &&& cfg_treasury(d) == args.treasury@
            &&& cfg_crank_authority(d) == args.crank_authority@
            &&& cfg_fee_basis_points(d) == args.fee_basis_points
            &&& cfg_max_soft_closes_cap(d) == args.max_soft_closes_cap
            &&& cfg_min_reserve_price(d) == args.min_reserve_price
            &&& cfg_min_duration_secs(d) == args.min_duration_secs
            &&& cfg_bump(d) == bump
        }),
{
    let e_fee = spec_u16_to_le_bytes(args.fee_basis_points);
    let e_res = spec_u64_to_le_bytes(args.min_reserve_price);
    let e_dur = spec_u64_to_le_bytes(args.min_duration_secs as u64);
    lemma_le_widths(args.fee_basis_points, 0, args.min_reserve_price);
    lemma_le_widths(0, 0, args.min_duration_secs as u64);
    let d0 = zeros(PROTOCOL_CONFIG_LEN as nat);
    let d1 = put_bytes(d0, 0, PROTOCOL_CONFIG@);
    let d2 = put_bytes(d1, CFG_AUTHORITY as int, args.authority@);
    let d3 = put_bytes(d2, CFG_EMERGENCY_AUTHORITY as int, args.emergency_authority@);
    let d4 = put_bytes(d3, CFG_TREASURY as int, args.treasury@);
    let d5 = put_bytes(d4, CFG_CRANK_AUTHORITY as int, args.crank_authority@);
    let d6 = put_bytes(d5, CFG_FEE_BASIS_POINTS as int, e_fee);
    let d7 = put_u8(d6, CFG_MAX_SOFT_CLOSES_CAP as int, args.max_soft_closes_cap);
    let d8 = put_bytes(d7, CFG_MIN_RESERVE_PRICE as int, e_res);
    let d9 = put_bytes(d8, CFG_MIN_DURATION_SECS as int, e_dur);
    let d = put_u8(d9, CFG_BUMP as int, bump);
    lemma_put_bytes_index(d0, 0, PROTOCOL_CONFIG@);
    lemma_put_bytes_index(d1, CFG_AUTHORITY as int, args.authority@);
    lemma_put_bytes_index(d2, CFG_EMERGENCY_AUTHORITY as int, args.emergency_authority@);
    lemma_put_bytes_index(d3, CFG_TREASURY as int, args.treasury@);
    lemma_put_bytes_index(d4, CFG_CRANK_AUTHORITY as int, args.crank_authority@);
    lemma_put_bytes_index(d5, CFG_FEE_BASIS_POINTS as int, e_fee);
    lemma_put_bytes_index(d7, CFG_MIN_RESERVE_PRICE as int, e_res);
    lemma_put_bytes_index(d8, CFG_MIN_DURATION_SECS as int, e_dur);
    assert(d == new_config_bytes(args, bump));
    assert(cfg_discriminator(d) =~= PROTOCOL_CONFIG@);
    assert(cfg_authority(d) =~= args.authority@);
    assert(cfg_emergency_authority(d) =~= args.emergency_authority@);
    assert(cfg_treasury(d) =~= args.treasury@);
    assert(cfg_crank_authority(d) =~= args.crank_authority@);
    assert(bytes_at(d, CFG_FEE_BASIS_POINTS as int, 2) =~= e_fee);
    assert(bytes_at(d, CFG_MIN_RESERVE_PRICE as int, 8) =~= e_res);
    lemma_u64_at_encoding(d, CFG_MIN_RESERVE_PRICE as int, args.min_reserve_price);
    assert(bytes_at(d, CFG_MIN_DURATION_SECS as int, 8) =~= e_dur);
    lemma_u64_at_encoding(d, CFG_MIN_DURATION_SECS as int, args.min_duration_secs as u64);
    lemma_i64_bits(args.min_duration_secs);
}

/// An update of the protocol configuration stores its arguments (treasury,
/// fee, soft-close cap, minimum reserve price, minimum duration) and keeps
/// the authorities, the crank and the bump as they were.
pub proof fn law_update_config_stores_arguments(cfg: Seq<u8>, args: UpdateProtocolConfigArgs)
    requires
        cfg.len() == PROTOCOL_CONFIG_LEN,
    ensures
        ({
            let d = updated_config_bytes(cfg, args);
            &&& d.len() == PROTOCOL_CONFIG_LEN
            &&& cfg_treasury(d) == args.new_treasury@
            &&& cfg_fee_basis_points(d) == args.new_fee_basis_points
            &&& cfg_max_soft_closes_cap(d) == args.new_max_soft_closes_cap
            &&& cfg_min_reserve_price(d) == args.new_min_reserve_price
            &&& cfg_min_duration_secs(d) == args.new_min_duration_secs
            &&& cfg_discriminator(d) == cfg_discriminator(cfg)
            &&& cfg_authority(d) == cfg_authority(cfg)
            &&& cfg_emergency_authority(d) == cfg_emergency_authority(cfg)
            &&& cfg_crank_authority(d) == cfg_crank_authority(cfg)
            &&& cfg_bump(d) == cfg_bump(cfg)
        }),
{
    let e_fee = spec_u16_to_le_bytes(args.new_fee_basis_points);
    let e_res = spec_u64_to_le_bytes(args.new_min_reserve_price);
    let e_dur = spec_u64_to_le_bytes(args.new_min_duration_secs as u64);
    lemma_le_widths(args.new_fee_basis_points, 0, args.new_min_reserve_price);
    lemma_le_widths(0, 0, args.new_min_duration_secs as u64);
    let d1 = put_bytes(cfg, CFG_TREASURY as int, args.new_treasury@);
    let d2 = put_bytes(d1, CFG_FEE_BASIS_POINTS as int, e_fee);
    let d3 = put_u8(d2, CFG_MAX_SOFT_CLOSES_CAP as int, args.new_max_soft_closes_cap);
    let d4 = put_bytes(d3, CFG_MIN_RESERVE_PRICE as int, e_res);
    let d = put_bytes(d4, CFG_MIN_DURATION_SECS as int, e_dur);
    lemma_put_bytes_index(cfg, CFG_TREASURY as int, args.new_treasury@);
    lemma_put_bytes_index(d1, CFG_FEE_BASIS_POINTS as int, e_fee);
    lemma_put_bytes_index(d3, CFG_MIN_RESERVE_PRICE as int, e_res);
    lemma_put_bytes_index(d4, CFG_MIN_DURATION_SECS as int, e_dur);
    assert(d == updated_config_bytes(cfg, args));
    assert(cfg_treasury(d) =~= args.new_treasury@);
    assert(bytes_at(d, CFG_FEE_BASIS_POINTS as int, 2) =~= e_fee);
    assert(bytes_at(d, CFG_MIN_RESERVE_PRICE as int, 8) =~= e_res);
    lemma_u64_at_encoding(d, CFG_MIN_RESERVE_PRICE as int, args.new_min_reserve_price);
    assert(bytes_at(d, CFG_MIN_DURATION_SECS as int, 8) =~= e_dur);
    lemma_u64_at_encoding(d, CFG_MIN_DURATION_SECS as int, args.new_min_duration_secs as u64);
    lemma_i64_bits(args.new_min_duration_secs);
    assert(cfg_discriminator(d) =~= cfg_discriminator(cfg));
    assert(cfg_authority(d) =~= cfg_authority(cfg));
    assert(cfg_emergency_authority(d) =~= cfg_emergency_authority(cfg));
    assert(cfg_crank_authority(d) =~= cfg_crank_authority(cfg));
}

/// A bid records its time: a first bid creates the bidder's record for this
/// competition, not a winner, stamped with the bid time; a repeat bid
/// restamps the record with the bid time and keeps who and what it is for.
pub proof fn law_register_bid_stamps_record(v: RegisterBidView, program_id: Seq<u8>, now: i64, o: RegisterBidOutcome)
    requires
        v.competition.len() == 32,
        v.bidder.len() == 32,
        v.record_data.len() != 0 ==> v.record_data.len() == PARTICIPANT_RECORD_LEN,
        register_bid_effects(v, program_id, now, o),
    ensures
        match o {
            RegisterBidOutcome::FirstBid { record_data, .. } => {
                &&& record_data@.len() == PARTICIPANT_RECORD_LEN
                &&& part_discriminator(record_data@) == PARTICIPANT_RECORD@
                &&& part_competition(record_data@) == v.competition
                &&& part_participant(record_data@) == v.bidder
                &&& part_is_winner(record_data@) == NOT_WINNER
                &&& part_bump(record_data@) == pda_bump(participant_record_seeds(v.competition, v.bidder), program_id)
                &&& part_last_action(record_data@) == now
            },
            RegisterBidOutcome::RepeatBid { record_data } => {
                &&& record_data@.len() == v.record_data.len()
                &&& part_last_action(record_data@) == now
                &&& part_discriminator(record_data@) == part_discriminator(v.record_data)
                &&& part_competition(record_data@) == part_competition(v.record_data)
                &&& part_participant(record_data@) == part_participant(v.record_data)
                &&& part_is_winner(record_data@) == part_is_winner(v.record_data)
            },
        },
{
    let e_now = spec_u64_to_le_bytes(now as u64);
    lemma_le_widths(0, 0, now as u64);
    lemma_i64_bits(now);
    if v.record_data.len() == 0 {
        let bump = pda_bump(participant_record_seeds(v.competition, v.bidder), program_id);
        let d0 = zeros(PARTICIPANT_RECORD_LEN as nat);
        let d1 = put_bytes(d0, 0, PARTICIPANT_RECORD@);
        let d2 = put_bytes(d1, PART_COMPETITION as int, v.competition);
        let d3 = put_bytes(d2, PART_PARTICIPANT as int, v.bidder);
        let d4 = put_u8(d3, PART_IS_WINNER as int, NOT_WINNER);
        let d5 = put_u8(d4, PART_BUMP as int, bump);
        let d = put_bytes(d5, PART_LAST_ACTION as int, e_now);
        lemma_put_bytes_index(d0, 0, PARTICIPANT_RECORD@);
        lemma_put_bytes_index(d1, PART_COMPETITION as int, v.competition);
        lemma_put_bytes_index(d2, PART_PARTICIPANT as int, v.bidder);
        lemma_put_bytes_index(d5, PART_LAST_ACTION as int, e_now);
        assert(part_discriminator(d) =~= PARTICIPANT_RECORD@);
        assert(part_competition(d) =~= v.competition);
        assert(part_participant(d) =~= v.bidder);
        assert(bytes_at(d, PART_LAST_ACTION as int, 8) =~= e_now);
        lemma_u64_at_encoding(d, PART_LAST_ACTION as int, now as u64);
    } else {
        let d = put_bytes(v.record_data, PART_LAST_ACTION as int, e_now);
        lemma_put_bytes_index(v.record_data, PART_LAST_ACTION as int, e_now);
        assert(bytes_at(d, PART_LAST_ACTION as int, 8) =~= e_now);
        lemma_u64_at_encoding(d, PART_LAST_ACTION as int, now as u64);
        assert(part_discriminator(d) =~= part_discriminator(v.record_data));
        assert(part_competition(d) =~= part_competition(v.record_data));
        assert(part_participant(d) =~= part_participant(v.record_data));
    }
}

/// A crank rotation stores the new crank and keeps every other setting:
/// the authorities, the treasury and the fee.
pub proof fn law_update_crank_stores_crank(cfg: Seq<u8>, new_crank: Seq<u8>)
    requires
        cfg.len() == PROTOCOL_CONFIG_LEN,
        new_crank.len() == 32,
    ensures
        ({
            let d = put_bytes(cfg, CFG_CRANK_AUTHORITY as int, new_crank);
            &&& d.len() == PROTOCOL_CONFIG_LEN
            &&& cfg_crank_authority(d) == new_crank
            &&& cfg_authority(d) == cfg_authority(cfg)
            &&& cfg_emergency_authority(d) == cfg_emergency_authority(cfg)
            &&& cfg_treasury(d) == cfg_treasury(cfg)
            &&& cfg_fee_basis_points(d) == cfg_fee_basis_points(cfg)
        }),
{
    let d = put_bytes(cfg, CFG_CRANK_AUTHORITY as int, new_crank);
    lemma_put_bytes_index(cfg, CFG_CRANK_AUTHORITY as int, new_crank);
    assert(cfg_crank_authority(d) =~= new_crank);
    assert(cfg_authority(d) =~= cfg_authority(cfg));
    assert(cfg_emergency_authority(d) =~= cfg_emergency_authority(cfg));
    assert(cfg_treasury(d) =~= cfg_treasury(cfg));
    assert(bytes_at(d, CFG_FEE_BASIS_POINTS as int, 2) =~= bytes_at(cfg, CFG_FEE_BASIS_POINTS as int, 2));
}

} // verus!
