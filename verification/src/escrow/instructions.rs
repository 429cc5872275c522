//! The instructions of the escrow program.

use vstd::prelude::*;
use crate::escrow::args::DepositArgs;

verus! {

/// All instructions exposed by the escrow program.
///
/// - `Deposit`: create the caller's vault and lock `amount` lamports, or top
///   an existing vault up. Accounts: vault (writable), depositor (signer,
///   writable), payer (signer, writable), competition, system program.
/// - `Release`: after settlement, pay the winner's `vault.amount` to the
///   seller minus the protocol fee, the fee to the treasury and the rent back
///   to the depositor. Accounts: vault, authority, depositor (writable),
///   crank (signer), competition, participant record, protocol config,
///   treasury (writable).
/// - `Refund`: return the whole vault balance to the depositor when the
///   competition is cancelled, or settled and the depositor did not win.
///   Accounts: vault (writable), depositor (signer, writable), competition,
///   participant record.
#[derive(Clone, Copy, Debug, PartialEq, Eq, Structural)]
pub enum TycheEscrowInstruction {
    Deposit(DepositArgs),
    Release,
    Refund,
}

} // verus!
