//! Instruction dispatch of the escrow program.
//!
//! Instruction data is an 8-byte discriminator followed by the arguments of
//! the instruction (only `Deposit` has any).

use vstd::prelude::*;
use crate::escrow::discriminator::{DEPOSIT, REFUND, RELEASE};
use crate::escrow::processor::deposit::{
    DepositInstruction, DepositOutcome, deposit_accounts_error, deposit_effects, deposit_error,
};
use crate::escrow::processor::refund::{
    RefundInstruction, RefundOutcome, RefundView, refund_accounts_error, refund_effects,
    refund_error, refund_view,
};
use crate::escrow::processor::release::{
    ReleaseInstruction, ReleaseOutcome, ReleaseView, release_accounts_error, release_effects,
    release_error, release_view,
};
use crate::layout::{bytes_at, bytes_equal_at, u64_at};
use crate::program::{AccountState, ProgramError};

verus! {

/// The effect of an escrow instruction that passed its checks.
pub enum EscrowOutcome {
    Deposit(DepositOutcome),
    Release(ReleaseOutcome),
    Refund(RefundOutcome),
}

/// The `Release` view of an instruction's account list.
pub open spec fn release_view_of(a: Seq<AccountState>) -> ReleaseView {
    ReleaseView {
        vault: a[0].address@,
        vault_data: a[0].data@,
        vault_lamports: a[0].lamports,
        authority: a[1].address@,
        authority_lamports: a[1].lamports,
        depositor: a[2].address@,
        depositor_lamports: a[2].lamports,
        crank: a[3].address@,
        competition: a[4].address@,
        competition_data: a[4].data@,
        record_data: a[5].data@,
        config_data: a[6].data@,
        treasury: a[7].address@,
        treasury_lamports: a[7].lamports,
    }
}

/// The `Refund` view of an instruction's account list.
pub open spec fn refund_view_of(a: Seq<AccountState>) -> RefundView {
    RefundView {
        vault_data: a[0].data@,
        vault_lamports: a[0].lamports,
        depositor: a[1].address@,
        depositor_lamports: a[1].lamports,
        competition: a[2].address@,
        competition_data: a[2].data@,
        record_data: a[3].data@,
    }
}

/// The error that the escrow program reports for `accounts` and `data`, if any.
pub open spec fn escrow_error_of(a: Seq<AccountState>, data: Seq<u8>) -> Option<ProgramError> {
    if data.len() < 8 {
        Some(ProgramError::InvalidInstructionData)
    } else if bytes_at(data, 0, 8) == DEPOSIT@ {
        if deposit_accounts_error(a) is Some {
            deposit_accounts_error(a)
        } else if data.len() != 16 {
            Some(ProgramError::InvalidInstructionData)
        } else {
            deposit_error(a[0].address@, a[0].data@, a[1].address@, a[3].address@, a[3].data@, u64_at(data, 8))
        }
    } else if bytes_at(data, 0, 8) == RELEASE@ {
        if release_accounts_error(a) is Some {
            release_accounts_error(a)
        } else {
            release_error(release_view_of(a))
        }
    } else if bytes_at(data, 0, 8) == REFUND@ {
        if refund_accounts_error(a) is Some {
            refund_accounts_error(a)
        } else {
            refund_error(refund_view_of(a))
        }
    } else {
        Some(ProgramError::InvalidInstructionData)
    }
}

/// Whether `o` is the effect of the escrow instruction in `data` on `accounts`.
pub open spec fn escrow_effects_of(a: Seq<AccountState>, data: Seq<u8>, o: EscrowOutcome) -> bool {
    if bytes_at(data, 0, 8) == DEPOSIT@ {
        o matches EscrowOutcome::Deposit(d) && deposit_effects(a[0].data@, a[1].address@, a[3].address@, u64_at(data, 8), d)
    } else if bytes_at(data, 0, 8) == RELEASE@ {
        o matches EscrowOutcome::Release(r) && release_effects(release_view_of(a), r)
    } else {
        o matches EscrowOutcome::Refund(r) && refund_effects(refund_view_of(a), r)
    }
}

/// Decodes the instruction, validates its accounts and runs its checks.
pub fn process_instruction(accounts: &[AccountState], data: &[u8]) -> (r: Result<EscrowOutcome, ProgramError>)
    ensures
        match escrow_error_of(accounts@, data@) {
            Some(e) => r matches Err(x) && x == e,
            None => r matches Ok(o) && escrow_effects_of(accounts@, data@, o),
        },
{
    if data.len() < 8 {
        return Err(ProgramError::InvalidInstructionData);
    }
    let args = vstd::slice::slice_subrange(data, 8, data.len());
    assert(args@.len() == data@.len() - 8);
    assert(args@.len() == 8 ==> u64_at(args@, 0) == u64_at(data@, 8)) by {
        if args@.len() == 8 {
            assert(bytes_at(args@, 0, 8) =~= bytes_at(data@, 8, 8));
        }
    }
    if bytes_equal_at(data, 0, &DEPOSIT) {
        let ix = DepositInstruction::try_from(accounts, args)?;
        let o = ix.handler()?;
        Ok(EscrowOutcome::Deposit(o))
    } else if bytes_equal_at(data, 0, &RELEASE) {
        let ix = ReleaseInstruction::try_from(accounts, args)?;
        assert(release_view(ix) == release_view_of(accounts@));
        let o = ix.handler()?;
        Ok(EscrowOutcome::Release(o))
    } else if bytes_equal_at(data, 0, &REFUND) {
        let ix = RefundInstruction::try_from(accounts, args)?;
        assert(refund_view(ix) == refund_view_of(accounts@));
        let o = ix.handler()?;
        Ok(EscrowOutcome::Refund(o))
    } else {
        Err(ProgramError::InvalidInstructionData)
    }
}

} // verus!
