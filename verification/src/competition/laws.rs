//! Properties of the competition program that span its instructions: the
//! lifecycle every competition follows and the limits every instruction keeps.

use vstd::prelude::*;
use crate::common::{
    MAX_FEE_BASIS_POINTS, MAX_PARTICIPANTS, PHASE_ACTIVE, PHASE_CANCELLED, PHASE_SCHEDULED,
    PHASE_SETTLED, PHASE_SETTLING,
};
use crate::competition::instruction_args::{InitializeProtocolConfigArgs, UpdateProtocolConfigArgs};
use crate::competition::processor::activate::{activate_error, activated_bytes};
use crate::competition::processor::cancel::cancel_error;
use crate::competition::processor::close::close_error;
use crate::competition::processor::extend::{extend_error, extended_bytes};
use crate::competition::processor::initialize_protocol_config::new_config_bytes;
use crate::competition::processor::register_bid::{
    RegisterBidOutcome, RegisterBidView, register_bid_effects, register_bid_error,
};
use crate::competition::processor::settle::{settle_error, settled_bytes};
use crate::competition::processor::update_protocol_config::{
    update_config_error, updated_config_bytes,
};
use crate::competition::state::{
    CFG_BUMP, CFG_FEE_BASIS_POINTS, CFG_MAX_SOFT_CLOSES_CAP, CFG_MIN_DURATION_SECS,
    CFG_MIN_RESERVE_PRICE, COMPETITION_STATE_LEN, COMP_END_TIME, COMP_PARTICIPANT_COUNT,
    COMP_MAX_SOFT_CLOSES, COMP_PHASE, COMP_SETTLEMENT_REF, COMP_SOFT_CLOSE_COUNT,
    COMP_SOFT_CLOSE_EXTENSION, PROTOCOL_CONFIG_LEN,
    cfg_fee_basis_points, comp_duration_secs, comp_end_time, comp_max_soft_closes,
    comp_participant_count, comp_phase, comp_settlement_ref, comp_soft_close_count,
    comp_soft_close_extension,
};
use crate::layout::{
    lemma_i64_roundtrip, lemma_le_widths, lemma_put_bytes, lemma_put_bytes_other,
    lemma_put_u8_other, lemma_u16_roundtrip, lemma_u32_roundtrip, put_bytes, put_i64, put_u16,
    put_u64, put_u8, spec_u64_le,
};

verus! {

/// The phase changes that the lifecycle allows: Scheduled → Active →
/// Settling → Settled, Scheduled or Active → Cancelled, and Active staying
/// Active while bids come in and the window is extended. Settled and
/// Cancelled are final: no change leaves them.
pub open spec fn lifecycle_step(from: u8, to: u8) -> bool {
    ||| from == PHASE_SCHEDULED && (to == PHASE_ACTIVE || to == PHASE_CANCELLED)
    ||| from == PHASE_ACTIVE && (to == PHASE_ACTIVE || to == PHASE_SETTLING || to == PHASE_CANCELLED)
    ||| from == PHASE_SETTLING && to == PHASE_SETTLED
}

/// Settled and Cancelled are final.
pub proof fn law_terminal_phases_are_final(to: u8)
    ensures
        !lifecycle_step(PHASE_SETTLED, to),
        !lifecycle_step(PHASE_CANCELLED, to),
{
}

/// Activation moves a Scheduled competition to Active and opens a window of
/// exactly `duration_secs` from the moment of activation.
pub proof fn law_activate_lifecycle(d: Seq<u8>, authority: Seq<u8>, now: i64)
    requires
        d.len() == COMPETITION_STATE_LEN,
        activate_error(d, authority, now) is None,
    ensures
        lifecycle_step(comp_phase(d), comp_phase(activated_bytes(d, now))),
        comp_phase(activated_bytes(d, now)) == PHASE_ACTIVE,
        comp_end_time(activated_bytes(d, now)) == now + comp_duration_secs(d),
{
    let d1 = put_u8(d, COMP_PHASE as int, PHASE_ACTIVE);
    let e = (now + comp_duration_secs(d)) as i64;
    lemma_i64_roundtrip(d1, COMP_END_TIME as int, e);
    lemma_le_widths(0, 0, e as u64);
    lemma_put_bytes(d1, COMP_END_TIME as int, spec_u64_le(e as u64));
}

/// Cancelling moves a Scheduled competition, or an Active one without
/// participants, to Cancelled.
pub proof fn law_cancel_lifecycle(d: Seq<u8>, authority: Seq<u8>)
    requires
        d.len() == COMPETITION_STATE_LEN,
        cancel_error(d, authority) is None,
    ensures
        lifecycle_step(comp_phase(d), comp_phase(put_u8(d, COMP_PHASE as int, PHASE_CANCELLED))),
        comp_phase(d) == PHASE_SCHEDULED || (comp_phase(d) == PHASE_ACTIVE && comp_participant_count(d) == 0),
{
}

/// Closing moves an Active competition whose window has ended to Settling.
pub proof fn law_close_lifecycle(d: Seq<u8>, cfg: Seq<u8>, crank: Seq<u8>, now: i64)
    requires
        d.len() == COMPETITION_STATE_LEN,
        close_error(d, cfg, crank, now) is None,
    ensures
        lifecycle_step(comp_phase(d), comp_phase(put_u8(d, COMP_PHASE as int, PHASE_SETTLING))),
        now >= comp_end_time(d),
{
}

/// A soft close keeps the competition Active, moves its end by
/// `soft_close_extension` and never takes the soft-close counter past
/// `max_soft_closes`.
pub proof fn law_extend_lifecycle(d: Seq<u8>, cfg: Seq<u8>, crank: Seq<u8>, now: i64)
    requires
        d.len() == COMPETITION_STATE_LEN,
        extend_error(d, cfg, crank, now) is None,
    ensures
        lifecycle_step(comp_phase(d), comp_phase(extended_bytes(d))),
        comp_end_time(extended_bytes(d)) == comp_end_time(d) + comp_soft_close_extension(d),
        comp_soft_close_count(extended_bytes(d)) == comp_soft_close_count(d) + 1,
        comp_soft_close_count(extended_bytes(d)) <= comp_max_soft_closes(extended_bytes(d)),
        comp_end_time(d) - crate::competition::state::comp_soft_close_window(d) <= now < comp_end_time(d),
        extended_bytes(d).len() == COMPETITION_STATE_LEN,
        comp_max_soft_closes(extended_bytes(d)) == comp_max_soft_closes(d),
        comp_soft_close_extension(extended_bytes(d)) == comp_soft_close_extension(d),
{
    let e = (comp_end_time(d) + comp_soft_close_extension(d)) as i64;
    let d1 = put_i64(d, COMP_END_TIME as int, e);
    lemma_i64_roundtrip(d, COMP_END_TIME as int, e);
    lemma_le_widths(0, 0, e as u64);
    lemma_put_bytes(d, COMP_END_TIME as int, spec_u64_le(e as u64));
    lemma_put_u8_other(d1, COMP_SOFT_CLOSE_COUNT as int, (comp_soft_close_count(d) + 1) as u8, COMP_END_TIME as int, 8);
    lemma_put_bytes_other(d, COMP_END_TIME as int, spec_u64_le(e as u64), COMP_SOFT_CLOSE_EXTENSION as int, 8);
    lemma_put_u8_other(d1, COMP_SOFT_CLOSE_COUNT as int, (comp_soft_close_count(d) + 1) as u8, COMP_SOFT_CLOSE_EXTENSION as int, 8);
    assert(d1[COMP_MAX_SOFT_CLOSES as int] == d[COMP_MAX_SOFT_CLOSES as int]);
}

/// The competition data after one `ExtendCompetition` call: the soft close
/// when the call passes its checks, the data unchanged when it is refused.
pub open spec fn extend_step(d: Seq<u8>, cfg: Seq<u8>, crank: Seq<u8>, now: i64) -> Seq<u8> {
    if extend_error(d, cfg, crank, now) is None {
        extended_bytes(d)
    } else {
        d
    }
}

/// Over any run of `ExtendCompetition` calls, accepted or refused: the
/// soft-close counter never passes `max_soft_closes`, the cap and the
/// extension stay as they are, and the end moves by one extension per
/// accepted call, so by at most `max_soft_closes` extensions in all.
pub proof fn law_extend_run(s: Seq<Seq<u8>>, cfgs: Seq<Seq<u8>>, cranks: Seq<Seq<u8>>, nows: Seq<i64>)
    requires
        s.len() >= 1,
        s[0].len() == COMPETITION_STATE_LEN,
        comp_soft_close_count(s[0]) <= comp_max_soft_closes(s[0]),
        cfgs.len() == s.len() - 1,
        cranks.len() == s.len() - 1,
        nows.len() == s.len() - 1,
        forall|i: int| 0 <= i < s.len() - 1 ==> s[i + 1] == extend_step(#[trigger] s[i], cfgs[i], cranks[i], nows[i]),
    ensures
        s.last().len() == COMPETITION_STATE_LEN,
        comp_max_soft_closes(s.last()) == comp_max_soft_closes(s[0]),
        comp_soft_close_extension(s.last()) == comp_soft_close_extension(s[0]),
        comp_soft_close_count(s[0]) <= comp_soft_close_count(s.last()) <= comp_max_soft_closes(s[0]),
        comp_end_time(s.last()) == comp_end_time(s[0])
            + (comp_soft_close_count(s.last()) - comp_soft_close_count(s[0])) * comp_soft_close_extension(s[0]),
        comp_soft_close_extension(s[0]) >= 0 ==> comp_end_time(s.last()) <= comp_end_time(s[0])
            + comp_max_soft_closes(s[0]) * comp_soft_close_extension(s[0]),
    decreases s.len(),
{
    let n = s.len() as int;
    let x = comp_soft_close_extension(s[0]) as int;
    let m = comp_max_soft_closes(s[0]) as int;
    let c0 = comp_soft_close_count(s[0]) as int;
    if n > 1 {
        let p = s.take(n - 1);
        assert forall|i: int| 0 <= i < p.len() - 1 implies p[i + 1] == extend_step(
            #[trigger] p[i],
            cfgs.take(n - 2)[i],
            cranks.take(n - 2)[i],
            nows.take(n - 2)[i],
        ) by {
            assert(p[i] == s[i]);
            assert(p[i + 1] == s[i + 1]);
            assert(s[i + 1] == extend_step(s[i], cfgs[i], cranks[i], nows[i]));
        }
        law_extend_run(p, cfgs.take(n - 2), cranks.take(n - 2), nows.take(n - 2));
        assert(p.last() == s[n - 2]);
        let d = s[n - 2];
        assert(s[n - 1] == extend_step(d, cfgs[n - 2], cranks[n - 2], nows[n - 2]));
        let k = comp_soft_close_count(d) as int;
        if extend_error(d, cfgs[n - 2], cranks[n - 2], nows[n - 2]) is None {
            law_extend_lifecycle(d, cfgs[n - 2], cranks[n - 2], nows[n - 2]);
            assert((k - c0) * x + x == (k + 1 - c0) * x) by (nonlinear_arith);
        }
        let kl = comp_soft_close_count(s[n - 1]) as int;
        assert(x >= 0 && 0 <= kl - c0 <= m ==> (kl - c0) * x <= m * x) by (nonlinear_arith);
    } else {
        assert(x >= 0 ==> 0 * x <= m * x) by (nonlinear_arith)
            requires m >= 0;
    }
}

/// Settlement moves a Settling competition to Settled and records the
/// settlement reference.
pub proof fn law_settle_lifecycle(
    d: Seq<u8>,
    cfg: Seq<u8>,
    crank: Seq<u8>,
    delegation_lamports: u64,
    record: Seq<u8>,
    winner: Seq<u8>,
    settlement_ref: Seq<u8>,
)
    requires
        d.len() == COMPETITION_STATE_LEN,
        settlement_ref.len() == 32,
        settle_error(d, cfg, crank, delegation_lamports, record, winner) is None,
    ensures
        lifecycle_step(comp_phase(d), comp_phase(settled_bytes(d, settlement_ref))),
        comp_settlement_ref(settled_bytes(d, settlement_ref)) == settlement_ref,
{
    let d1 = put_bytes(d, COMP_SETTLEMENT_REF as int, settlement_ref);
    lemma_put_bytes(d, COMP_SETTLEMENT_REF as int, settlement_ref);
    lemma_put_u8_other(d1, COMP_PHASE as int, PHASE_SETTLED, COMP_SETTLEMENT_REF as int, 32);
}

/// A bid keeps the competition Active; a first bid adds exactly one
/// participant, a repeat bid none, and the count never exceeds
/// `MAX_PARTICIPANTS`.
pub proof fn law_register_bid_counts_once(v: RegisterBidView, program_id: Seq<u8>, now: i64, o: RegisterBidOutcome)
    requires
        v.competition_data.len() == COMPETITION_STATE_LEN,
        register_bid_error(v, program_id) is None,
        register_bid_effects(v, program_id, now, o),
    ensures
        comp_phase(v.competition_data) == PHASE_ACTIVE,
        lifecycle_step(comp_phase(v.competition_data), PHASE_ACTIVE),
        o matches RegisterBidOutcome::FirstBid { competition_data, .. } ==> {
            &&& comp_participant_count(competition_data@) == comp_participant_count(v.competition_data) + 1
            &&& comp_participant_count(competition_data@) <= MAX_PARTICIPANTS
            &&& comp_phase(competition_data@) == PHASE_ACTIVE
        },
{
    if v.record_data.len() == 0 {
        let c = (comp_participant_count(v.competition_data) + 1) as u32;
        lemma_u32_roundtrip(v.competition_data, COMP_PARTICIPANT_COUNT as int, c);
        lemma_le_widths(0, c, 0);
        lemma_put_bytes(v.competition_data, COMP_PARTICIPANT_COUNT as int, vstd::bytes::spec_u32_to_le_bytes(c));
    }
}

/// The protocol fee never exceeds the hard ceiling: initialization stores a
/// fee that passed the ceiling check.
pub proof fn law_init_config_fee_ceiling(args: InitializeProtocolConfigArgs, bump: u8)
    requires
        args.fee_basis_points <= MAX_FEE_BASIS_POINTS,
        args.authority@.len() == 32,
        args.emergency_authority@.len() == 32,
        args.treasury@.len() == 32,
        args.crank_authority@.len() == 32,
    ensures
        new_config_bytes(args, bump).len() == PROTOCOL_CONFIG_LEN,
        cfg_fee_basis_points(new_config_bytes(args, bump)) == args.fee_basis_points,
        cfg_fee_basis_points(new_config_bytes(args, bump)) <= MAX_FEE_BASIS_POINTS,
{
    let d0 = crate::layout::zeros(PROTOCOL_CONFIG_LEN as nat);
    let d1 = put_bytes(d0, 0, crate::competition::discriminator::PROTOCOL_CONFIG@);
    let d2 = put_bytes(d1, crate::competition::state::CFG_AUTHORITY as int, args.authority@);
    let d3 = put_bytes(d2, crate::competition::state::CFG_EMERGENCY_AUTHORITY as int, args.emergency_authority@);
    let d4 = put_bytes(d3, crate::competition::state::CFG_TREASURY as int, args.treasury@);
    let d5 = put_bytes(d4, crate::competition::state::CFG_CRANK_AUTHORITY as int, args.crank_authority@);
    let d6 = put_u16(d5, CFG_FEE_BASIS_POINTS as int, args.fee_basis_points);
    let d7 = put_u8(d6, CFG_MAX_SOFT_CLOSES_CAP as int, args.max_soft_closes_cap);
    let d8 = put_u64(d7, CFG_MIN_RESERVE_PRICE as int, args.min_reserve_price);
    let d9 = put_i64(d8, CFG_MIN_DURATION_SECS as int, args.min_duration_secs);
    lemma_put_bytes(d0, 0, crate::competition::discriminator::PROTOCOL_CONFIG@);
    lemma_put_bytes(d1, crate::competition::state::CFG_AUTHORITY as int, args.authority@);
    lemma_put_bytes(d2, crate::competition::state::CFG_EMERGENCY_AUTHORITY as int, args.emergency_authority@);
    lemma_put_bytes(d3, crate::competition::state::CFG_TREASURY as int, args.treasury@);
    lemma_put_bytes(d4, crate::competition::state::CFG_CRANK_AUTHORITY as int, args.crank_authority@);
    lemma_u16_roundtrip(d5, CFG_FEE_BASIS_POINTS as int, args.fee_basis_points);
    lemma_put_u8_other(d6, CFG_MAX_SOFT_CLOSES_CAP as int, args.max_soft_closes_cap, CFG_FEE_BASIS_POINTS as int, 2);
    lemma_le_widths(0, 0, args.min_reserve_price);
    lemma_put_bytes_other(d7, CFG_MIN_RESERVE_PRICE as int, spec_u64_le(args.min_reserve_price), CFG_FEE_BASIS_POINTS as int, 2);
    lemma_le_widths(0, 0, args.min_duration_secs as u64);
    lemma_put_bytes_other(d8, CFG_MIN_DURATION_SECS as int, spec_u64_le(args.min_duration_secs as u64), CFG_FEE_BASIS_POINTS as int, 2);
    lemma_put_u8_other(d9, CFG_BUMP as int, bump, CFG_FEE_BASIS_POINTS as int, 2);
}

/// The protocol fee never exceeds the hard ceiling: an update that succeeds
/// stores a fee within it.
pub proof fn law_update_config_fee_ceiling(cfg: Seq<u8>, authority: Seq<u8>, args: UpdateProtocolConfigArgs)
    requires
        cfg.len() == PROTOCOL_CONFIG_LEN,
        args.new_treasury@.len() == 32,
        update_config_error(cfg, authority, args) is None,
    ensures
        cfg_fee_basis_points(updated_config_bytes(cfg, args)) == args.new_fee_basis_points,
        cfg_fee_basis_points(updated_config_bytes(cfg, args)) <= MAX_FEE_BASIS_POINTS,
{
    let d1 = put_bytes(cfg, crate::competition::state::CFG_TREASURY as int, args.new_treasury@);
    let d2 = put_u16(d1, CFG_FEE_BASIS_POINTS as int, args.new_fee_basis_points);
    let d3 = put_u8(d2, CFG_MAX_SOFT_CLOSES_CAP as int, args.new_max_soft_closes_cap);
    let d4 = put_u64(d3, CFG_MIN_RESERVE_PRICE as int, args.new_min_reserve_price);
    lemma_put_bytes(cfg, crate::competition::state::CFG_TREASURY as int, args.new_treasury@);
    lemma_u16_roundtrip(d1, CFG_FEE_BASIS_POINTS as int, args.new_fee_basis_points);
    lemma_put_u8_other(d2, CFG_MAX_SOFT_CLOSES_CAP as int, args.new_max_soft_closes_cap, CFG_FEE_BASIS_POINTS as int, 2);
    lemma_le_widths(0, 0, args.new_min_reserve_price);
    lemma_put_bytes_other(d3, CFG_MIN_RESERVE_PRICE as int, spec_u64_le(args.new_min_reserve_price), CFG_FEE_BASIS_POINTS as int, 2);
    lemma_le_widths(0, 0, args.new_min_duration_secs as u64);
    lemma_put_bytes_other(d4, CFG_MIN_DURATION_SECS as int, spec_u64_le(args.new_min_duration_secs as u64), CFG_FEE_BASIS_POINTS as int, 2);
}

} // verus!
