//! Protocol-wide constants shared by the three programs: competition phases,
//! asset types, PDA seed prefixes and limits.

use vstd::prelude::*;

verus! {

/// Phase byte of a competition that is created but not yet live.
pub const PHASE_SCHEDULED: u8 = 0;
/// Phase byte of a live competition (delegated to the rollup).
pub const PHASE_ACTIVE: u8 = 1;
/// Phase byte of a competition whose bidding window closed and that awaits settlement.
pub const PHASE_SETTLING: u8 = 2;
/// Phase byte of a settled competition (terminal).
pub const PHASE_SETTLED: u8 = 3;
/// Phase byte of a cancelled competition (terminal).
pub const PHASE_CANCELLED: u8 = 4;

/// Lifecycle phase of a competition.
#[derive(Clone, Copy, Debug, PartialEq, Eq, Structural)]
pub enum Phase {
    Scheduled,
    Active,
    Settling,
    Settled,
    Cancelled,
}

/// The byte that stores `p` in account data.
pub open spec fn phase_byte(p: Phase) -> u8 {
    match p {
        Phase::Scheduled => PHASE_SCHEDULED,
        Phase::Active => PHASE_ACTIVE,
        Phase::Settling => PHASE_SETTLING,
        Phase::Settled => PHASE_SETTLED,
        Phase::Cancelled => PHASE_CANCELLED,
    }
}

impl Phase {
    /// The byte that stores this phase in account data.
    pub fn as_u8(self) -> (b: u8)
        ensures
            b == phase_byte(self),
    {
        match self {
            Phase::Scheduled => PHASE_SCHEDULED,
            Phase::Active => PHASE_ACTIVE,
            Phase::Settling => PHASE_SETTLING,
            Phase::Settled => PHASE_SETTLED,
            Phase::Cancelled => PHASE_CANCELLED,
        }
    }

    /// The phase stored as `b`, if `b` stores one.
    pub fn from_u8(b: u8) -> (p: Option<Phase>)
        ensures
            p matches Some(q) ==> phase_byte(q) == b,
            p is None <==> b > PHASE_CANCELLED,
    {
        if b == PHASE_SCHEDULED {
            Some(Phase::Scheduled)
        } else if b == PHASE_ACTIVE {
            Some(Phase::Active)
        } else if b == PHASE_SETTLING {
            Some(Phase::Settling)
        } else if b == PHASE_SETTLED {
            Some(Phase::Settled)
        } else if b == PHASE_CANCELLED {
            Some(Phase::Cancelled)
        } else {
            None
        }
    }
}

/// Kinds of asset that a competition can price.
#[derive(Clone, Copy, Debug, PartialEq, Eq, Structural)]
pub enum AssetType {
    Nft,
    Token,
    Other,
}

/// Whether `b` is the byte of a known asset type.
pub open spec fn is_asset_type(b: u8) -> bool {
    b <= 2
}

impl AssetType {
    /// The asset type stored as `b`, if `b` stores one.
    pub fn try_from_primitive(b: u8) -> (r: Option<AssetType>)
        ensures
            (r is Some) == is_asset_type(b),
    {
        if b == 0 {
            Some(AssetType::Nft)
        } else if b == 1 {
            Some(AssetType::Token)
        } else if b == 2 {
            Some(AssetType::Other)
        } else {
            None
        }
    }
}

/// Seed prefix of `CompetitionState` addresses: `b"competition"`.
pub const COMPETITION_SEED: [u8; 11] = [99, 111, 109, 112, 101, 116, 105, 116, 105, 111, 110];

/// Seed prefix of `ParticipantRecord` addresses: `b"participant"`.
pub const PARTICIPANT_SEED: [u8; 11] = [112, 97, 114, 116, 105, 99, 105, 112, 97, 110, 116];

/// Seed prefix of `EscrowVault` addresses: `b"vault"`.
pub const VAULT_SEED: [u8; 5] = [118, 97, 117, 108, 116];

/// Seed of the singleton `ProtocolConfig` address: `b"protocol_config"`.
pub const PROTOCOL_CONFIG_SEED: [u8; 15] = [
    112, 114, 111, 116, 111, 99, 111, 108, 95, 99, 111, 110, 102, 105, 103,
];

/// Hard ceiling on the protocol fee: 10% in basis points.
pub const MAX_FEE_BASIS_POINTS: u16 = 1000;

/// Protocol-wide ceiling on the number of distinct bidders of one competition.
pub const MAX_PARTICIPANTS: u32 = 10000;

/// Basis-point denominator of the protocol fee.
pub const BASIS_POINTS_DENOMINATOR: u64 = 10000;

} // verus!
