//! Properties of the voter-weight plugin that span its instructions and the
//! escrow vaults it reads.

use vstd::prelude::*;
use crate::escrow::state::{vault_competition, vault_depositor, vault_amount};
use crate::layout::{
    addr_at, bytes_at, lemma_le_widths, lemma_put_bytes, lemma_put_bytes_index, put_bytes, spec_u64_le, u64_at, u8_at,
    zeros,
};
use crate::voter_weight::discriminator::{ID, MAX_VOTER_WEIGHT_RECORD, REGISTRAR, VOTER_WEIGHT_RECORD};
use crate::voter_weight::processor::create_registrar::{CreateRegistrarOutcome, create_registrar_effects};
use crate::voter_weight::state::registrar::{
    REG_BUMP, REG_COMPETITION, REG_GOVERNANCE_PROGRAM_ID, REG_GOVERNING_TOKEN_MINT, REG_REALM,
    REG_TYCHE_ESCROW_PROGRAM_ID, reg_bump, reg_discriminator, reg_governance_program_id,
    reg_has_prev_plugin, reg_prev_plugin_program_id, reg_tyche_escrow_program_id,
};
use crate::voter_weight::utils::pda::registrar_seeds;
use crate::program::pda_bump;
use crate::voter_weight::processor::create_voter_weight_record::{
    CreateVoterWeightRecordOutcome, CreateVoterWeightRecordView,
    create_voter_weight_record_effects,
};
use crate::voter_weight::processor::update_max_voter_weight_record::updated_max_voter_weight_record;
use crate::voter_weight::processor::update_voter_weight_record::{
    UpdateVoterWeightRecordInstruction, update_voter_weight_record_error,
    update_voter_weight_record_view, updated_voter_weight_record,
};
use crate::voter_weight::state::max_voter_weight_record::{
    MAX_VOTER_WEIGHT_RECORD_SIZE, max_voter_weight_record_bytes,
};
use crate::voter_weight::state::registrar::{
    REGISTRAR_LEN, reg_competition, reg_governing_token_mint, reg_realm,
};
use crate::voter_weight::state::voter_weight_record::{
    VOTER_WEIGHT_RECORD_MAX_SIZE, VoterWeightAction, action_byte, voter_weight_record_bytes,
};

verus! {

/// Every voter-weight record fits the space allocated for it: its encoding
/// takes at most 164 bytes, exactly 164 when every option is present.
pub proof fn law_voter_weight_record_fits(
    realm: Seq<u8>,
    mint: Seq<u8>,
    owner: Seq<u8>,
    voter_weight: u64,
    expiry: Option<u64>,
    action: Option<VoterWeightAction>,
    target: Option<Seq<u8>>,
)
    requires
        realm.len() == 32,
        mint.len() == 32,
        owner.len() == 32,
        target matches Some(t) ==> t.len() == 32,
    ensures
        voter_weight_record_bytes(VOTER_WEIGHT_RECORD@, realm, mint, owner, voter_weight, expiry, action, target).len()
            <= VOTER_WEIGHT_RECORD_MAX_SIZE,
        expiry is Some && action is Some && target is Some ==> voter_weight_record_bytes(
            VOTER_WEIGHT_RECORD@,
            realm,
            mint,
            owner,
            voter_weight,
            expiry,
            action,
            target,
        ).len() == VOTER_WEIGHT_RECORD_MAX_SIZE,
{
    lemma_le_widths(0, 0, voter_weight);
    if let Some(x) = expiry {
        lemma_le_widths(0, 0, x);
    }
}

/// Every max-voter-weight record fits the space allocated for it: at most
/// 97 bytes, exactly 97 with an expiry.
pub proof fn law_max_voter_weight_record_fits(realm: Seq<u8>, mint: Seq<u8>, max_voter_weight: u64, expiry: Option<u64>)
    requires
        realm.len() == 32,
        mint.len() == 32,
    ensures
        max_voter_weight_record_bytes(MAX_VOTER_WEIGHT_RECORD@, realm, mint, max_voter_weight, expiry).len()
            <= MAX_VOTER_WEIGHT_RECORD_SIZE,
        expiry is Some ==> max_voter_weight_record_bytes(MAX_VOTER_WEIGHT_RECORD@, realm, mint, max_voter_weight, expiry).len()
            == MAX_VOTER_WEIGHT_RECORD_SIZE,
{
    lemma_le_widths(0, 0, max_voter_weight);
    if let Some(x) = expiry {
        lemma_le_widths(0, 0, x);
    }
}

/// Voting power is escrowed SOL: after an `UpdateVoterWeightRecord` that
/// passed its checks, the record is the voter's, its weight is the amount in
/// the voter's escrow vault for the registrar's competition, it expires at
/// the current slot, and it is for the requested action on the proposal.
pub proof fn law_voter_weight_is_escrowed_amount(ix: UpdateVoterWeightRecordInstruction, slot: u64)
    requires
        update_voter_weight_record_error(update_voter_weight_record_view(ix)) is None,
    ensures
        ({
            let v = update_voter_weight_record_view(ix);
            let d = updated_voter_weight_record(v, ix.args.action, slot);
            &&& d.len() == v.record_data.len()
            &&& bytes_at(d, 0, 8) == VOTER_WEIGHT_RECORD@
            &&& addr_at(d, 8) == reg_realm(v.registrar_data)
            &&& addr_at(d, 40) == reg_governing_token_mint(v.registrar_data)
            &&& addr_at(d, 72) == v.voter
            &&& u64_at(d, 104) == vault_amount(v.vault_data)
            &&& u8_at(d, 112) == 1 && u64_at(d, 113) == slot
            &&& u8_at(d, 121) == 1 && u8_at(d, 122) == action_byte(ix.args.action)
            &&& u8_at(d, 123) == 1 && addr_at(d, 124) == v.proposal
            &&& vault_competition(v.vault_data) == reg_competition(v.registrar_data)
            &&& vault_depositor(v.vault_data) == v.voter
        }),
{
    let v = update_voter_weight_record_view(ix);
    let w = u64_at(v.vault_data, 72);
    lemma_le_widths(0, 0, w);
    lemma_le_widths(0, 0, slot);
    let realm = reg_realm(v.registrar_data);
    let mint = reg_governing_token_mint(v.registrar_data);
    let enc = voter_weight_record_bytes(
        VOTER_WEIGHT_RECORD@,
        realm,
        mint,
        v.voter,
        w,
        Some(slot),
        Some(ix.args.action),
        Some(v.proposal),
    );
    assert(v.registrar_data.len() == REGISTRAR_LEN);
    assert(enc.len() == 164);
    let d = put_bytes(v.record_data, 0, enc);
    lemma_put_bytes(v.record_data, 0, enc);
    assert(bytes_at(d, 0, 164) == enc);
    assert forall|k: int, n: int| 0 <= k && 0 <= n && k + n <= 164 implies #[trigger] bytes_at(d, k, n)
        == enc.subrange(k, k + n) by {
        assert(bytes_at(d, k, n) =~= bytes_at(d, 0, 164).subrange(k, k + n));
    }
    assert(enc.subrange(0, 8) =~= VOTER_WEIGHT_RECORD@);
    assert(enc.subrange(8, 40) =~= realm);
    assert(enc.subrange(40, 72) =~= mint);
    assert(enc.subrange(72, 104) =~= v.voter);
    assert(enc.subrange(104, 112) =~= spec_u64_le(w));
    assert(bytes_at(d, 104, 8) == spec_u64_le(w));
    assert(enc.subrange(112, 113) =~= seq![1u8]);
    assert(bytes_at(d, 112, 1) == seq![1u8]);
    assert(d[112] == bytes_at(d, 112, 1)[0]);
    assert(enc.subrange(113, 121) =~= spec_u64_le(slot));
    assert(bytes_at(d, 113, 8) == spec_u64_le(slot));
    assert(enc.subrange(121, 123) =~= seq![1u8, action_byte(ix.args.action)]);
    assert(bytes_at(d, 121, 2) == seq![1u8, action_byte(ix.args.action)]);
    assert(d[121] == bytes_at(d, 121, 2)[0]);
    assert(d[122] == bytes_at(d, 121, 2)[1]);
    assert(enc.subrange(123, 124) =~= seq![1u8]);
    assert(bytes_at(d, 123, 1) == seq![1u8]);
    assert(d[123] == bytes_at(d, 123, 1)[0]);
    assert(enc.subrange(124, 156) =~= v.proposal);
    assert(bytes_at(d, 124, 32) == v.proposal);
}

/// A new voter-weight record is the voter's record for this realm and
/// governing token mint (realm first, then mint, then voter), and carries no
/// voting power: weight 0, expired since slot 0, for no action.
pub proof fn law_new_voter_weight_record_is_expired(v: CreateVoterWeightRecordView, o: CreateVoterWeightRecordOutcome)
    requires
        v.realm.len() == 32,
        v.mint.len() == 32,
        v.voter.len() == 32,
        create_voter_weight_record_effects(v, o),
    ensures
        o.record_data@.len() == VOTER_WEIGHT_RECORD_MAX_SIZE,
        bytes_at(o.record_data@, 0, 8) == VOTER_WEIGHT_RECORD@,
        addr_at(o.record_data@, 8) == v.realm,
        addr_at(o.record_data@, 40) == v.mint,
        addr_at(o.record_data@, 72) == v.voter,
        u64_at(o.record_data@, 104) == 0,
        u8_at(o.record_data@, 112) == 1 && u64_at(o.record_data@, 113) == 0,
        u8_at(o.record_data@, 121) == 0,
{
    lemma_le_widths(0, 0, 0);
    let enc = voter_weight_record_bytes(VOTER_WEIGHT_RECORD@, v.realm, v.mint, v.voter, 0, Some(0u64), None, None);
    assert(enc.len() == 131);
    let d = o.record_data@;
    lemma_put_bytes(zeros(164), 0, enc);
    assert(bytes_at(d, 0, 131) == enc);
    assert forall|k: int, n: int| 0 <= k && 0 <= n && k + n <= 131 implies #[trigger] bytes_at(d, k, n)
        == enc.subrange(k, k + n) by {
        assert(bytes_at(d, k, n) =~= bytes_at(d, 0, 131).subrange(k, k + n));
    }
    assert(enc.subrange(0, 8) =~= VOTER_WEIGHT_RECORD@);
    assert(enc.subrange(8, 40) =~= v.realm);
    assert(enc.subrange(40, 72) =~= v.mint);
    assert(enc.subrange(72, 104) =~= v.voter);
    assert(enc.subrange(104, 112) =~= spec_u64_le(0));
    assert(bytes_at(d, 104, 8) == spec_u64_le(0));
    assert(enc.subrange(112, 113) =~= seq![1u8]);
    assert(d[112] == bytes_at(d, 112, 1)[0]);
    assert(enc.subrange(113, 121) =~= spec_u64_le(0));
    assert(bytes_at(d, 113, 8) == spec_u64_le(0));
    assert(enc.subrange(121, 122) =~= seq![0u8]);
    assert(d[121] == bytes_at(d, 121, 1)[0]);
}

/// The max-voter-weight record is always `u64::MAX`, and an update stamps it
/// with the current slot.
pub proof fn law_max_voter_weight_is_unbounded(record_data: Seq<u8>, registrar_data: Seq<u8>, slot: u64)
    requires
        record_data.len() >= MAX_VOTER_WEIGHT_RECORD_SIZE,
        registrar_data.len() == REGISTRAR_LEN,
    ensures
        ({
            let d = updated_max_voter_weight_record(record_data, registrar_data, slot);
            &&& d.len() == record_data.len()
            &&& bytes_at(d, 0, 8) == MAX_VOTER_WEIGHT_RECORD@
            &&& addr_at(d, 8) == reg_realm(registrar_data)
            &&& addr_at(d, 40) == reg_governing_token_mint(registrar_data)
            &&& u64_at(d, 72) == u64::MAX
            &&& u8_at(d, 80) == 1 && u64_at(d, 81) == slot
        }),
{
    lemma_le_widths(0, 0, u64::MAX);
    lemma_le_widths(0, 0, slot);
    let realm = reg_realm(registrar_data);
    let mint = reg_governing_token_mint(registrar_data);
    let enc = max_voter_weight_record_bytes(MAX_VOTER_WEIGHT_RECORD@, realm, mint, u64::MAX, Some(slot));
    assert(enc.len() == 97);
    let d = put_bytes(record_data, 0, enc);
    lemma_put_bytes(record_data, 0, enc);
    assert(bytes_at(d, 0, 97) == enc);
    assert forall|k: int, n: int| 0 <= k && 0 <= n && k + n <= 97 implies #[trigger] bytes_at(d, k, n)
        == enc.subrange(k, k + n) by {
        assert(bytes_at(d, k, n) =~= bytes_at(d, 0, 97).subrange(k, k + n));
    }
    assert(enc.subrange(0, 8) =~= MAX_VOTER_WEIGHT_RECORD@);
    assert(enc.subrange(8, 40) =~= realm);
    assert(enc.subrange(40, 72) =~= mint);
    assert(enc.subrange(72, 80) =~= spec_u64_le(u64::MAX));
    assert(bytes_at(d, 72, 8) == spec_u64_le(u64::MAX));
    assert(enc.subrange(80, 81) =~= seq![1u8]);
    assert(d[80] == bytes_at(d, 80, 1)[0]);
    assert(enc.subrange(81, 89) =~= spec_u64_le(slot));
    assert(bytes_at(d, 81, 8) == spec_u64_le(slot));
}

/// A new registrar records its configuration: the governance program, the
/// escrow program and the competition each read back as the argument they
/// came from, the realm and mint as the accounts it was created for, with no
/// previous plugin.
pub proof fn law_registrar_stores_configuration(
    governance_program_id: Seq<u8>,
    competition: Seq<u8>,
    escrow_program_id: Seq<u8>,
    realm: Seq<u8>,
    mint: Seq<u8>,
    with_max_record: bool,
    o: CreateRegistrarOutcome,
)
    requires
        governance_program_id.len() == 32,
        competition.len() == 32,
        escrow_program_id.len() == 32,
        realm.len() == 32,
        mint.len() == 32,
        create_registrar_effects(governance_program_id, competition, escrow_program_id, realm, mint, with_max_record, o),
    ensures
        ({
            let d = o.registrar_data@;
            &&& d.len() == REGISTRAR_LEN
            &&& reg_discriminator(d) == REGISTRAR@
            &&& reg_governance_program_id(d) == governance_program_id
            &&& reg_realm(d) == realm
            &&& reg_governing_token_mint(d) == mint
            &&& reg_tyche_escrow_program_id(d) == escrow_program_id
            &&& reg_competition(d) == competition
            &&& reg_prev_plugin_program_id(d) == zeros(32)
            &&& reg_has_prev_plugin(d) == 0
            &&& reg_bump(d) == pda_bump(registrar_seeds(realm, mint), ID@)
        }),
        with_max_record ==> (o.max_voter_weight_record matches Some(n) && {
            &&& n.data@.len() == MAX_VOTER_WEIGHT_RECORD_SIZE
            &&& bytes_at(n.data@, 0, 8) == MAX_VOTER_WEIGHT_RECORD@
            &&& addr_at(n.data@, 8) == realm
            &&& addr_at(n.data@, 40) == mint
            &&& u64_at(n.data@, 72) == u64::MAX
            &&& u8_at(n.data@, 80) == 0
        }),
        !with_max_record ==> o.max_voter_weight_record is None,
{
    if with_max_record {
        lemma_le_widths(0, 0, u64::MAX);
        let enc = max_voter_weight_record_bytes(MAX_VOTER_WEIGHT_RECORD@, realm, mint, u64::MAX, None);
        assert(enc.len() == 89);
        let m = put_bytes(zeros(97), 0, enc);
        lemma_put_bytes_index(zeros(97), 0, enc);
        assert(bytes_at(m, 0, 8) =~= MAX_VOTER_WEIGHT_RECORD@);
        assert(addr_at(m, 8) =~= realm);
        assert(addr_at(m, 40) =~= mint);
        assert(bytes_at(m, 72, 8) =~= spec_u64_le(u64::MAX));
        assert(m[80] == enc[80]);
    }
    let d0 = zeros(REGISTRAR_LEN as nat);
    let d1 = put_bytes(d0, 0, REGISTRAR@);
    let d2 = put_bytes(d1, REG_GOVERNANCE_PROGRAM_ID as int, governance_program_id);
    let d3 = put_bytes(d2, REG_REALM as int, realm);
    let d4 = put_bytes(d3, REG_GOVERNING_TOKEN_MINT as int, mint);
    let d5 = put_bytes(d4, REG_TYCHE_ESCROW_PROGRAM_ID as int, escrow_program_id);
    let d6 = put_bytes(d5, REG_COMPETITION as int, competition);
    lemma_put_bytes_index(d0, 0, REGISTRAR@);
    lemma_put_bytes_index(d1, REG_GOVERNANCE_PROGRAM_ID as int, governance_program_id);
    lemma_put_bytes_index(d2, REG_REALM as int, realm);
    lemma_put_bytes_index(d3, REG_GOVERNING_TOKEN_MINT as int, mint);
    lemma_put_bytes_index(d4, REG_TYCHE_ESCROW_PROGRAM_ID as int, escrow_program_id);
    lemma_put_bytes_index(d5, REG_COMPETITION as int, competition);
    let d = o.registrar_data@;
    assert(reg_discriminator(d) =~= REGISTRAR@);
    assert(reg_governance_program_id(d) =~= governance_program_id);
    assert(reg_realm(d) =~= realm);
    assert(reg_governing_token_mint(d) =~= mint);
    assert(reg_tyche_escrow_program_id(d) =~= escrow_program_id);
    assert(reg_competition(d) =~= competition);
    assert(reg_prev_plugin_program_id(d) =~= zeros(32));
}

} // verus!
