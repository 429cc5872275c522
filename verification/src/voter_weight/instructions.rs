//! The plugin's instruction interface. Every instruction starts with its
//! 8-byte discriminator, `sha256("global:<instruction_name>")[0..8]`.
//!
//! * `CreateRegistrar` — one-time setup by the realm authority. Accounts:
//!   registrar (writable PDA `[realm, "registrar", mint]`), realm (owned by
//!   the governance program), governing token mint, realm authority (signer,
//!   the realm's authority), payer (signer), system program, and optionally
//!   the max-voter-weight record (writable PDA
//!   `[realm, "max-voter-weight-record", mint]`), created alongside.
//!   Arguments: governance program id, competition, escrow program id — 96
//!   bytes.
//! * `CreateVoterWeightRecord` — once per voter, after the escrow deposit.
//!   Accounts: record (writable PDA `["voter-weight-record", realm, mint,
//!   voter]`), registrar, realm, governing token mint, voter (signer), payer
//!   (signer), system program. The record starts with weight 0, expired at
//!   slot 0.
//! * `UpdateVoterWeightRecord` — in the same transaction as the vote.
//!   Accounts: record (writable), registrar, the voter's escrow vault, voter
//!   (signer, the vault's depositor), proposal. The weight becomes the
//!   vault's amount, expiring at the current slot, for the given action
//!   (default `CastVote`) on the proposal.
//! * `UpdateMaxVoterWeightRecord` — accounts: max-voter-weight record
//!   (writable), registrar. Stamps the record with the current slot.

use vstd::prelude::*;

verus! {

/// Marker for the plugin's instruction set; see the module documentation.
pub struct PluginInstructions;

} // verus!
