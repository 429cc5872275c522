//! `Release`: pay out the winner's vault after settlement.

use vstd::prelude::*;
use crate::common::PHASE_SETTLED;
use crate::competition::discriminator::{COMPETITION_STATE, PARTICIPANT_RECORD, PROTOCOL_CONFIG};
use crate::competition::state::{
    CFG_CRANK_AUTHORITY, CFG_FEE_BASIS_POINTS, CFG_TREASURY, COMPETITION_STATE_LEN, COMP_AUTHORITY,
    COMP_PHASE, IS_WINNER, PARTICIPANT_RECORD_LEN, PART_COMPETITION, PART_IS_WINNER,
    PART_PARTICIPANT, PROTOCOL_CONFIG_LEN, cfg_crank_authority, cfg_discriminator,
    cfg_fee_basis_points, cfg_treasury, comp_authority, comp_discriminator, comp_phase,
    part_competition, part_discriminator, part_is_winner, part_participant,
};
use crate::escrow::discriminator::ESCROW_VAULT;
use crate::escrow::error::{TycheEscrowError, escrow_err, escrow_error};
use crate::escrow::state::{
    ESCROW_VAULT_LEN, VAULT_AMOUNT, VAULT_COMPETITION, VAULT_DEPOSITOR, vault_amount,
    vault_competition, vault_depositor, vault_discriminator,
};
use crate::layout::{bytes_equal_at, read_u16, read_u64, read_u8, zero_bytes, zeros};
use crate::program::{AccountState, ProgramError};

verus! {

/// Validated accounts of `Release`.
pub struct ReleaseAccounts<'a> {
    pub vault: &'a AccountState,
    /// The competition authority (seller): receives the bid minus the fee.
    pub authority: &'a AccountState,
    /// The winner: receives the vault's rent reserve back.
    pub depositor: &'a AccountState,
    /// The protocol crank: must sign and match the configuration.
    pub crank: &'a AccountState,
    pub competition: &'a AccountState,
    pub participant_record: &'a AccountState,
    pub protocol_config: &'a AccountState,
    /// The protocol treasury: receives the fee.
    pub treasury: &'a AccountState,
}

/// The error that the account checks of `Release` report, if any.
pub open spec fn release_accounts_error(a: Seq<AccountState>) -> Option<ProgramError> {
    if a.len() < 8 {
        Some(ProgramError::NotEnoughAccountKeys)
    } else if !a[0].is_writable {
        Some(ProgramError::InvalidAccountData)
    } else if !a[1].is_writable {
        Some(ProgramError::InvalidAccountData)
    } else if !a[2].is_writable {
        Some(ProgramError::InvalidAccountData)
    } else if !a[3].is_signer {
        Some(ProgramError::MissingRequiredSignature)
    } else if !a[7].is_writable {
        Some(ProgramError::InvalidAccountData)
    } else {
        None
    }
}

impl<'a> ReleaseAccounts<'a> {
    /// Takes the first eight accounts and checks writability and the crank signature.
    pub fn try_from(accounts: &'a [AccountState]) -> (r: Result<ReleaseAccounts<'a>, ProgramError>)
        ensures
            match release_accounts_error(accounts@) {
                Some(e) => r matches Err(x) && x == e,
                None => r matches Ok(x) && {
                    &&& *x.vault == accounts@[0]
                    &&& *x.authority == accounts@[1]
                    &&& *x.depositor == accounts@[2]
                    &&& *x.crank == accounts@[3]
                    &&& *x.competition == accounts@[4]
                    &&& *x.participant_record == accounts@[5]
                    &&& *x.protocol_config == accounts@[6]
                    &&& *x.treasury == accounts@[7]
                },
            },
    {
        if accounts.len() < 8 {
            return Err(ProgramError::NotEnoughAccountKeys);
        }
        let vault = &accounts[0];
        let authority = &accounts[1];
        let depositor = &accounts[2];
        let crank = &accounts[3];
        let competition = &accounts[4];
        let participant_record = &accounts[5];
        let protocol_config = &accounts[6];
        let treasury = &accounts[7];
        if !vault.is_writable {
            return Err(ProgramError::InvalidAccountData);
        }
        if !authority.is_writable {
            return Err(ProgramError::InvalidAccountData);
        }
        if !depositor.is_writable {
            return Err(ProgramError::InvalidAccountData);
        }
        if !crank.is_signer {
            return Err(ProgramError::MissingRequiredSignature);
        }
        if !treasury.is_writable {
            return Err(ProgramError::InvalidAccountData);
        }
        Ok(ReleaseAccounts {
            vault,
            authority,
            depositor,
            crank,
            competition,
            participant_record,
            protocol_config,
            treasury,
        })
    }
}

/// Instruction context of `Release` (no arguments).
pub struct ReleaseInstruction<'a> {
    pub accounts: ReleaseAccounts<'a>,
}

impl<'a> ReleaseInstruction<'a> {
    /// Validates the accounts; the instruction data is not read.
    pub fn try_from(accounts: &'a [AccountState], data: &[u8]) -> (r: Result<ReleaseInstruction<'a>, ProgramError>)
        ensures
            match release_accounts_error(accounts@) {
                Some(e) => r matches Err(x) && x == e,
                None => r matches Ok(ix) && {
                    &&& *ix.accounts.vault == accounts@[0]
                    &&& *ix.accounts.authority == accounts@[1]
                    &&& *ix.accounts.depositor == accounts@[2]
                    &&& *ix.accounts.crank == accounts@[3]
                    &&& *ix.accounts.competition == accounts@[4]
                    &&& *ix.accounts.participant_record == accounts@[5]
                    &&& *ix.accounts.protocol_config == accounts@[6]
                    &&& *ix.accounts.treasury == accounts@[7]
                },
            },
    {
        let accounts = ReleaseAccounts::try_from(accounts)?;
        Ok(ReleaseInstruction { accounts })
    }
}

/// The protocol fee on `amount` at `fee_basis_points`:
/// `amount * fee_basis_points / 10_000`, truncated to 64 bits.
pub open spec fn protocol_fee(amount: u64, fee_basis_points: u16) -> u64 {
    if fee_basis_points == 0 {
        0
    } else {
        ((amount as int * fee_basis_points as int) / 10000) as u64
    }
}

/// The contents of the accounts of a `Release` as plain values.
pub struct ReleaseView {
    pub vault: Seq<u8>,
    pub vault_data: Seq<u8>,
    pub vault_lamports: u64,
    pub authority: Seq<u8>,
    pub authority_lamports: u64,
    pub depositor: Seq<u8>,
    pub depositor_lamports: u64,
    pub crank: Seq<u8>,
    pub competition: Seq<u8>,
    pub competition_data: Seq<u8>,
    pub record_data: Seq<u8>,
    pub config_data: Seq<u8>,
    pub treasury: Seq<u8>,
    pub treasury_lamports: u64,
}

/// The plain contents of the accounts of `ix`.
pub open spec fn release_view(ix: ReleaseInstruction) -> ReleaseView {
    let a = ix.accounts;
    ReleaseView {
        vault: a.vault.address@,
        vault_data: a.vault.data@,
        vault_lamports: a.vault.lamports,
        authority: a.authority.address@,
        authority_lamports: a.authority.lamports,
        depositor: a.depositor.address@,
        depositor_lamports: a.depositor.lamports,
        crank: a.crank.address@,
        competition: a.competition.address@,
        competition_data: a.competition.data@,
        record_data: a.participant_record.data@,
        config_data: a.protocol_config.data@,
        treasury: a.treasury.address@,
        treasury_lamports: a.treasury.lamports,
    }
}

/// The error that the vault checks shared by `Release` and `Refund` report.
pub open spec fn vault_error(v: Seq<u8>, competition: Seq<u8>, depositor: Seq<u8>) -> Option<ProgramError> {
    if v.len() != ESCROW_VAULT_LEN {
        Some(ProgramError::InvalidAccountData)
    } else if vault_discriminator(v) != ESCROW_VAULT@ {
        Some(escrow_err(TycheEscrowError::InvalidDiscriminator))
    } else if vault_competition(v) != competition {
        Some(ProgramError::InvalidAccountData)
    } else if vault_depositor(v) != depositor {
        Some(ProgramError::InvalidAccountData)
    } else {
        None
    }
}

/// The error that the participant-record checks shared by `Release` and
/// `Refund` report (the winner flag aside).
pub open spec fn record_error(r: Seq<u8>, competition: Seq<u8>, depositor: Seq<u8>) -> Option<ProgramError> {
    if r.len() != PARTICIPANT_RECORD_LEN {
        Some(ProgramError::InvalidAccountData)
    } else if part_discriminator(r) != PARTICIPANT_RECORD@ {
        Some(escrow_err(TycheEscrowError::InvalidDiscriminator))
    } else if part_competition(r) != competition {
        Some(ProgramError::InvalidAccountData)
    } else if part_participant(r) != depositor {
        Some(ProgramError::InvalidAccountData)
    } else {
        None
    }
}

/// The error that `Release` reports for these account contents, if any.
pub open spec fn release_error(v: ReleaseView) -> Option<ProgramError> {
    let amount = vault_amount(v.vault_data);
    let bps = cfg_fee_basis_points(v.config_data);
    let fee = protocol_fee(amount, bps);
    if vault_error(v.vault_data, v.competition, v.depositor) is Some {
        vault_error(v.vault_data, v.competition, v.depositor)
    } else if amount == 0 {
        Some(escrow_err(TycheEscrowError::InvalidAmount))
    } else if v.config_data.len() != PROTOCOL_CONFIG_LEN {
        Some(escrow_err(TycheEscrowError::InvalidProtocolConfig))
    } else if cfg_discriminator(v.config_data) != PROTOCOL_CONFIG@ {
        Some(escrow_err(TycheEscrowError::InvalidProtocolConfig))
    } else if v.competition_data.len() != COMPETITION_STATE_LEN {
        Some(ProgramError::InvalidAccountData)
    } else if comp_discriminator(v.competition_data) != COMPETITION_STATE@ {
        Some(escrow_err(TycheEscrowError::InvalidDiscriminator))
    } else if comp_phase(v.competition_data) != PHASE_SETTLED {
        Some(escrow_err(TycheEscrowError::InvalidPhase))
    } else if v.authority != comp_authority(v.competition_data) {
        Some(ProgramError::InvalidAccountData)
    } else if v.treasury != cfg_treasury(v.config_data) {
        Some(escrow_err(TycheEscrowError::InvalidTreasury))
    } else if record_error(v.record_data, v.competition, v.depositor) is Some {
        record_error(v.record_data, v.competition, v.depositor)
    } else if part_is_winner(v.record_data) != IS_WINNER {
        Some(escrow_err(TycheEscrowError::NotWinner))
    } else if v.crank != cfg_crank_authority(v.config_data) {
        Some(escrow_err(TycheEscrowError::InvalidCrankAuthority))
    } else if fee > amount {
        Some(escrow_err(TycheEscrowError::ArithmeticOverflow))
    } else if amount > v.vault_lamports {
        Some(escrow_err(TycheEscrowError::ArithmeticOverflow))
    } else if v.authority_lamports + (amount - fee) > u64::MAX {
        Some(escrow_err(TycheEscrowError::ArithmeticOverflow))
    } else if v.treasury_lamports + fee > u64::MAX {
        Some(escrow_err(TycheEscrowError::ArithmeticOverflow))
    } else if v.depositor_lamports + (v.vault_lamports - amount) > u64::MAX {
        Some(escrow_err(TycheEscrowError::ArithmeticOverflow))
    } else {
        None
    }
}

/// What a `Release` that passed its checks does, in order: zero the vault's
/// data, then set the lamports of the vault, the authority, the treasury
/// (only when `treasury_lamports` is `Some`) and the depositor.
pub struct ReleaseOutcome {
    pub fee: u64,
    pub net_bid: u64,
    pub rent_back: u64,
    pub vault_data: Vec<u8>,
    pub vault_lamports: u64,
    pub authority_lamports: u64,
    pub treasury_lamports: Option<u64>,
    pub depositor_lamports: u64,
}

/// Whether `o` is the effect of a `Release` that passed its checks.
pub open spec fn release_effects(v: ReleaseView, o: ReleaseOutcome) -> bool {
    let amount = vault_amount(v.vault_data);
    let fee = protocol_fee(amount, cfg_fee_basis_points(v.config_data));
    &&& o.fee == fee
    &&& o.net_bid == amount - fee
    &&& o.rent_back == v.vault_lamports - amount
    &&& o.vault_data@ == zeros(v.vault_data.len())
    &&& o.vault_lamports == 0
    &&& o.authority_lamports == v.authority_lamports + (amount - fee)
    &&& o.treasury_lamports == (if fee > 0 { Some((v.treasury_lamports + fee) as u64) } else { None::<u64> })
    &&& o.depositor_lamports == v.depositor_lamports + (v.vault_lamports - amount)
}

impl<'a> ReleaseInstruction<'a> {
    /// Checks the release and describes the lamport movements: fee to the
    /// treasury, the rest of the bid to the seller, the rent reserve back to
    /// the depositor.
    pub fn handler(&self) -> (r: Result<ReleaseOutcome, ProgramError>)
        ensures
            match release_error(release_view(*self)) {
                Some(e) => r matches Err(x) && x == e,
                None => r matches Ok(o) && release_effects(release_view(*self), o),
            },
    {
        let accounts = &self.accounts;
        let ghost v = release_view(*self);

        // 1: The vault must belong to this competition and depositor.
        let vd = accounts.vault.data.as_slice();
        if vd.len() != ESCROW_VAULT_LEN {
            return Err(ProgramError::InvalidAccountData);
        }
        if !bytes_equal_at(vd, 0, &ESCROW_VAULT) {
            return Err(escrow_error(TycheEscrowError::InvalidDiscriminator));
        }
        if !bytes_equal_at(vd, VAULT_COMPETITION, &accounts.competition.address) {
            return Err(ProgramError::InvalidAccountData);
        }
        if !bytes_equal_at(vd, VAULT_DEPOSITOR, &accounts.depositor.address) {
            return Err(ProgramError::InvalidAccountData);
        }
        let vault_amount = read_u64(vd, VAULT_AMOUNT);
        if vault_amount == 0 {
            return Err(escrow_error(TycheEscrowError::InvalidAmount));
        }

        // 2: Protocol configuration: crank, fee rate, treasury.
        let cfg = accounts.protocol_config.data.as_slice();
        if cfg.len() != PROTOCOL_CONFIG_LEN {
            return Err(escrow_error(TycheEscrowError::InvalidProtocolConfig));
        }
        if !bytes_equal_at(cfg, 0, &PROTOCOL_CONFIG) {
            return Err(escrow_error(TycheEscrowError::InvalidProtocolConfig));
        }
        let fee_basis_points = read_u16(cfg, CFG_FEE_BASIS_POINTS);

        // 3: The competition must be Settled.
        let comp = accounts.competition.data.as_slice();
        if comp.len() != COMPETITION_STATE_LEN {
            return Err(ProgramError::InvalidAccountData);
        }
        if !bytes_equal_at(comp, 0, &COMPETITION_STATE) {
            return Err(escrow_error(TycheEscrowError::InvalidDiscriminator));
        }
        if read_u8(comp, COMP_PHASE) != PHASE_SETTLED {
            return Err(escrow_error(TycheEscrowError::InvalidPhase));
        }

        // 4: The payee must be the competition authority.
        if !bytes_equal_at(comp, COMP_AUTHORITY, &accounts.authority.address) {
            return Err(ProgramError::InvalidAccountData);
        }

        // 5: The treasury must be the configured treasury.
        if !bytes_equal_at(cfg, CFG_TREASURY, &accounts.treasury.address) {
            return Err(escrow_error(TycheEscrowError::InvalidTreasury));
        }

        // 6: The depositor must be the winner.
        let rec = accounts.participant_record.data.as_slice();
        if rec.len() != PARTICIPANT_RECORD_LEN {
            return Err(ProgramError::InvalidAccountData);
        }
        if !bytes_equal_at(rec, 0, &PARTICIPANT_RECORD) {
            return Err(escrow_error(TycheEscrowError::InvalidDiscriminator));
        }
        if !bytes_equal_at(rec, PART_COMPETITION, &accounts.competition.address) {
            return Err(ProgramError::InvalidAccountData);
        }
        if !bytes_equal_at(rec, PART_PARTICIPANT, &accounts.depositor.address) {
            return Err(ProgramError::InvalidAccountData);
        }
        if read_u8(rec, PART_IS_WINNER) != IS_WINNER {
            return Err(escrow_error(TycheEscrowError::NotWinner));
        }

        // 7: The signer must be the configured crank.
        if !bytes_equal_at(cfg, CFG_CRANK_AUTHORITY, &accounts.crank.address) {
            return Err(escrow_error(TycheEscrowError::InvalidCrankAuthority));
        }

        // 8: Fee on the purchase price, with a 128-bit intermediate product.
        let fee: u64 = if fee_basis_points == 0 {
            0
        } else {
            let a = vault_amount as u128;
            let b = fee_basis_points as u128;
            assert(a * b <= 0xffff_ffff_ffff_ffff * 0xffff) by (nonlinear_arith)
                requires
                    a <= 0xffff_ffff_ffff_ffff,
                    b <= 0xffff,
            ;
            #[verifier::truncate]
            ((a * b / 10000u128) as u64)
        };
        let net_bid = match vault_amount.checked_sub(fee) {
            Some(n) => n,
            None => return Err(escrow_error(TycheEscrowError::ArithmeticOverflow)),
        };

        // 9: The rent reserve goes back to the depositor.
        let vault_lamports = accounts.vault.lamports;
        let rent_back = match vault_lamports.checked_sub(vault_amount) {
            Some(n) => n,
            None => return Err(escrow_error(TycheEscrowError::ArithmeticOverflow)),
        };

        // 10: New balances.
        let new_authority = match accounts.authority.lamports.checked_add(net_bid) {
            Some(n) => n,
            None => return Err(escrow_error(TycheEscrowError::ArithmeticOverflow)),
        };
        let new_treasury = match accounts.treasury.lamports.checked_add(fee) {
            Some(n) => n,
            None => return Err(escrow_error(TycheEscrowError::ArithmeticOverflow)),
        };
        let new_depositor = match accounts.depositor.lamports.checked_add(rent_back) {
            Some(n) => n,
            None => return Err(escrow_error(TycheEscrowError::ArithmeticOverflow)),
        };

        Ok(ReleaseOutcome {
            fee,
            net_bid,
            rent_back,
            vault_data: zero_bytes(vd.len()),
            vault_lamports: 0,
            authority_lamports: new_authority,
            treasury_lamports: if fee > 0 { Some(new_treasury) } else { None },
            depositor_lamports: new_depositor,
        })
    }
}

} // verus!
