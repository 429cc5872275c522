//! Arguments of the competition program's instructions.

use vstd::prelude::*;

verus! {

/// Arguments of `CreateCompetition`.
#[derive(Clone, Copy, Debug, PartialEq, Eq)]
pub struct CreateCompetitionArgs {
    /// Caller-chosen identifier, unique per authority.
    pub id: [u8; 32],
    pub asset_type: u8,
    /// Earliest activation time (unix seconds).
    pub start_time: i64,
    /// Length of the bidding window once activated.
    pub duration_secs: i64,
    /// How long before the end a late bid may extend the window.
    pub soft_close_window: i64,
    /// How much each soft close extends the window.
    pub soft_close_extension: i64,
    pub max_soft_closes: u8,
    pub reserve_price: u64,
}

/// Arguments of `ActivateCompetition`.
#[derive(Clone, Copy, Debug, PartialEq, Eq)]
pub struct ActivateCompetitionArgs {
    /// How often the rollup commits the delegated state, in milliseconds.
    pub commit_frequency_ms: u32,
}

/// Arguments of `SettleCompetition`.
#[derive(Clone, Copy, Debug, PartialEq, Eq)]
pub struct SettleCompetitionArgs {
    /// The vertical's outcome account: the canonical settlement proof.
    pub settlement_ref: [u8; 32],
    /// The winning participant, or the zero address when nobody won.
    pub winner: [u8; 32],
}

/// Arguments of `InitializeProtocolConfig`.
#[derive(Clone, Copy, Debug, PartialEq, Eq)]
pub struct InitializeProtocolConfigArgs {
    pub authority: [u8; 32],
    pub emergency_authority: [u8; 32],
    pub treasury: [u8; 32],
    pub crank_authority: [u8; 32],
    pub fee_basis_points: u16,
    pub max_soft_closes_cap: u8,
    pub min_reserve_price: u64,
    pub min_duration_secs: i64,
}

/// Arguments of `UpdateCrankAuthority`.
#[derive(Clone, Copy, Debug, PartialEq, Eq)]
pub struct UpdateCrankAuthorityArgs {
    pub new_crank_authority: [u8; 32],
}

/// Arguments of `UpdateProtocolConfig`.
#[derive(Clone, Copy, Debug, PartialEq, Eq)]
pub struct UpdateProtocolConfigArgs {
    pub new_treasury: [u8; 32],
    pub new_fee_basis_points: u16,
    pub new_max_soft_closes_cap: u8,
    pub new_min_reserve_price: u64,
    pub new_min_duration_secs: i64,
}

} // verus!
