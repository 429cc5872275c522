//! Properties of the escrow program that span its instructions.

use vstd::prelude::*;
use crate::escrow::discriminator::ESCROW_VAULT;
use crate::escrow::error::{TycheEscrowError, escrow_err};
use crate::escrow::discriminator::ID;
use crate::escrow::processor::deposit::{DepositOutcome, deposit_effects, deposit_error, vault_seeds};
use crate::program::pda_bump;
use crate::escrow::processor::refund::{RefundOutcome, RefundView, refund_effects, refund_error};
use crate::escrow::processor::release::{
    ReleaseOutcome, ReleaseView, release_effects, release_error,
};
use crate::escrow::state::{
    ESCROW_VAULT_LEN, VAULT_AMOUNT, VAULT_BUMP, VAULT_COMPETITION, VAULT_DEPOSITOR,
    vault_amount, vault_bump, vault_competition, vault_depositor, vault_discriminator,
};
use crate::competition::state::cfg_fee_basis_points;
use crate::layout::{
    bytes_at, lemma_put_bytes, lemma_put_bytes_other, lemma_put_u8_other, lemma_u64_roundtrip, put_bytes,
    put_u64, zeros,
};

verus! {

/// The treasury balance after a release.
pub open spec fn treasury_after(v: ReleaseView, o: ReleaseOutcome) -> u64 {
    match o.treasury_lamports {
        Some(t) => t,
        None => v.treasury_lamports,
    }
}

/// A release moves lamports and never creates or destroys any: the vault,
/// seller, treasury and depositor hold together as much after as before.
pub proof fn law_release_conserves_lamports(v: ReleaseView, o: ReleaseOutcome)
    requires
        release_error(v) is None,
        release_effects(v, o),
    ensures
        o.vault_lamports + o.authority_lamports + treasury_after(v, o) + o.depositor_lamports
            == v.vault_lamports + v.authority_lamports + v.treasury_lamports + v.depositor_lamports,
{
}

/// The seller gets the purchase price minus the protocol fee, and the fee is
/// `amount * fee_basis_points / 10_000` whenever the rate is at most 100%.
pub proof fn law_release_fee_split(v: ReleaseView, o: ReleaseOutcome)
    requires
        release_error(v) is None,
        release_effects(v, o),
    ensures
        o.fee + o.net_bid == vault_amount(v.vault_data),
        cfg_fee_basis_points(v.config_data) <= 10000 ==> o.fee as int == vault_amount(v.vault_data)
            as int * cfg_fee_basis_points(v.config_data) as int / 10000,
{
    let a = vault_amount(v.vault_data) as int;
    let b = cfg_fee_basis_points(v.config_data) as int;
    if b <= 10000 {
        assert(a * b / 10000 <= a) by (nonlinear_arith)
            requires
                0 <= a,
                0 <= b <= 10000,
        ;
        assert(0 <= a * b / 10000) by (nonlinear_arith)
            requires
                0 <= a,
                0 <= b,
        ;
    }
}

/// A refund gives the depositor every lamport of the vault: together they
/// hold as much after as before.
pub proof fn law_refund_conserves_lamports(v: RefundView, o: RefundOutcome)
    requires
        refund_error(v) is None,
        refund_effects(v, o),
    ensures
        o.vault_lamports + o.depositor_lamports == v.vault_lamports + v.depositor_lamports,
{
}

/// A vault can be released or refunded, never both: when a release of the
/// winner's vault would succeed, a refund of the same vault is refused
/// because its depositor won.
pub proof fn law_winner_release_excludes_refund(r: ReleaseView, f: RefundView)
    requires
        f.vault_data == r.vault_data,
        f.depositor == r.depositor,
        f.competition == r.competition,
        f.competition_data == r.competition_data,
        f.record_data == r.record_data,
        release_error(r) is None,
    ensures
        refund_error(f) == Some(escrow_err(TycheEscrowError::WinnerCannotRefund)),
{
}

/// A closed (zeroed) vault cannot be refunded or released again.
pub proof fn law_closed_vault_refused(f: RefundView, r: ReleaseView)
    requires
        f.vault_data == zeros(f.vault_data.len()),
        r.vault_data == zeros(r.vault_data.len()),
    ensures
        refund_error(f) is Some,
        release_error(r) is Some,
{
    if f.vault_data.len() == ESCROW_VAULT_LEN {
        assert(vault_discriminator(f.vault_data)[0] == 0);
        assert(ESCROW_VAULT@[0] == 54);
    }
    if r.vault_data.len() == ESCROW_VAULT_LEN {
        assert(vault_discriminator(r.vault_data)[0] == 0);
        assert(ESCROW_VAULT@[0] == 54);
    }
}

/// The vault data that a deposit stores.
pub open spec fn stored_vault(o: DepositOutcome) -> Seq<u8> {
    o.vault_data@
}

/// A deposit keeps the vault bound to its competition and depositor, and
/// `vault.amount` is the sum of all deposits: the first one sets it, every
/// top-up adds to it.
pub proof fn law_deposit_accumulates(
    vault: Seq<u8>,
    vault_data: Seq<u8>,
    depositor: Seq<u8>,
    competition: Seq<u8>,
    competition_data: Seq<u8>,
    amount: u64,
    o: DepositOutcome,
)
    requires
        depositor.len() == 32,
        competition.len() == 32,
        deposit_error(vault, vault_data, depositor, competition, competition_data, amount) is None,
        deposit_effects(vault_data, depositor, competition, amount, o),
    ensures
        stored_vault(o).len() == ESCROW_VAULT_LEN,
        vault_discriminator(stored_vault(o)) == ESCROW_VAULT@,
        vault_competition(stored_vault(o)) == competition,
        vault_depositor(stored_vault(o)) == depositor,
        vault_data.len() == 0 ==> vault_amount(stored_vault(o)) == amount,
        vault_data.len() != 0 ==> vault_amount(stored_vault(o)) == vault_amount(vault_data) + amount,
        vault_data.len() == 0 ==> vault_bump(stored_vault(o)) == pda_bump(vault_seeds(competition, depositor), ID@),
        vault_data.len() != 0 ==> vault_bump(stored_vault(o)) == vault_bump(vault_data),
{
    let n = stored_vault(o);
    if vault_data.len() == 0 {
        let z = zeros(ESCROW_VAULT_LEN as nat);
        let d1 = put_bytes(z, 0, ESCROW_VAULT@);
        let d2 = put_bytes(d1, VAULT_COMPETITION as int, competition);
        let d3 = put_bytes(d2, VAULT_DEPOSITOR as int, depositor);
        let d4 = put_u64(d3, VAULT_AMOUNT as int, amount);
        let bump = n[VAULT_BUMP as int];
        lemma_put_bytes(z, 0, ESCROW_VAULT@);
        lemma_put_bytes(d1, VAULT_COMPETITION as int, competition);
        lemma_put_bytes_other(d1, VAULT_COMPETITION as int, competition, 0, 8);
        lemma_put_bytes(d2, VAULT_DEPOSITOR as int, depositor);
        lemma_put_bytes_other(d2, VAULT_DEPOSITOR as int, depositor, 0, 8);
        lemma_put_bytes_other(d2, VAULT_DEPOSITOR as int, depositor, VAULT_COMPETITION as int, 32);
        lemma_u64_roundtrip(d3, VAULT_AMOUNT as int, amount);
        lemma_put_bytes_other(d3, VAULT_AMOUNT as int, crate::layout::spec_u64_le(amount), 0, 8);
        lemma_put_bytes_other(d3, VAULT_AMOUNT as int, crate::layout::spec_u64_le(amount), VAULT_COMPETITION as int, 32);
        lemma_put_bytes_other(d3, VAULT_AMOUNT as int, crate::layout::spec_u64_le(amount), VAULT_DEPOSITOR as int, 32);
        lemma_put_u8_other(d4, VAULT_BUMP as int, bump, 0, 8);
        lemma_put_u8_other(d4, VAULT_BUMP as int, bump, VAULT_COMPETITION as int, 32);
        lemma_put_u8_other(d4, VAULT_BUMP as int, bump, VAULT_DEPOSITOR as int, 32);
        lemma_put_u8_other(d4, VAULT_BUMP as int, bump, VAULT_AMOUNT as int, 8);
    } else {
        let total = (vault_amount(vault_data) + amount) as u64;
        lemma_u64_roundtrip(vault_data, VAULT_AMOUNT as int, total);
        lemma_put_bytes_other(vault_data, VAULT_AMOUNT as int, crate::layout::spec_u64_le(total), 0, 8);
        lemma_put_bytes_other(vault_data, VAULT_AMOUNT as int, crate::layout::spec_u64_le(total), VAULT_COMPETITION as int, 32);
        lemma_put_bytes_other(vault_data, VAULT_AMOUNT as int, crate::layout::spec_u64_le(total), VAULT_DEPOSITOR as int, 32);
        crate::layout::lemma_le_widths(0, 0, total);
        lemma_put_bytes_other(vault_data, VAULT_AMOUNT as int, crate::layout::spec_u64_le(total), VAULT_BUMP as int, 1);
        assert(vault_bump(n) == bytes_at(n, VAULT_BUMP as int, 1)[0]);
        assert(vault_bump(vault_data) == bytes_at(vault_data, VAULT_BUMP as int, 1)[0]);
    }
}

/// The vault's balance after a deposit: the rent-exempt reserve `rent` that
/// creation funds plus the transfer on a first deposit, the old balance plus
/// the transfer on a top-up.
pub open spec fn vault_lamports_after(vault_data: Seq<u8>, vault_lamports: u64, rent: u64, o: DepositOutcome) -> int {
    if vault_data.len() == 0 {
        rent + o.transfer_lamports
    } else {
        vault_lamports + o.transfer_lamports
    }
}

/// A vault always holds its rent-exempt reserve plus `vault.amount`: a first
/// deposit establishes it and every top-up keeps it.
pub proof fn law_deposit_keeps_reserve(
    vault: Seq<u8>,
    vault_data: Seq<u8>,
    vault_lamports: u64,
    rent: u64,
    depositor: Seq<u8>,
    competition: Seq<u8>,
    competition_data: Seq<u8>,
    amount: u64,
    o: DepositOutcome,
)
    requires
        depositor.len() == 32,
        competition.len() == 32,
        deposit_error(vault, vault_data, depositor, competition, competition_data, amount) is None,
        deposit_effects(vault_data, depositor, competition, amount, o),
        vault_data.len() != 0 ==> vault_lamports == rent + vault_amount(vault_data),
    ensures
        vault_lamports_after(vault_data, vault_lamports, rent, o) == rent + vault_amount(stored_vault(o)),
{
    law_deposit_accumulates(vault, vault_data, depositor, competition, competition_data, amount, o);
}

/// When a vault holds its reserve plus `vault.amount`, a release hands the
/// depositor back exactly the reserve.
pub proof fn law_release_returns_reserve(v: ReleaseView, o: ReleaseOutcome, rent: u64)
    requires
        release_error(v) is None,
        release_effects(v, o),
        v.vault_lamports == rent + vault_amount(v.vault_data),
    ensures
        o.rent_back == rent,
        o.depositor_lamports == v.depositor_lamports + rent,
{
}

} // verus!
