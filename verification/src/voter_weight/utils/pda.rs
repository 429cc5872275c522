//! PDA seeds shared by SPL Governance voter-weight plugins.

use vstd::prelude::*;

verus! {

/// Seed of the registrar: `[realm, b"registrar", governing_token_mint]`.
pub const REGISTRAR_SEED: [u8; 9] = [114, 101, 103, 105, 115, 116, 114, 97, 114];

/// Seed prefix of voter-weight records:
/// `[b"voter-weight-record", realm, governing_token_mint, voter]`.
pub const VOTER_WEIGHT_RECORD_SEED: [u8; 19] = [
    118, 111, 116, 101, 114, 45, 119, 101, 105, 103, 104, 116, 45, 114, 101, 99, 111, 114, 100,
];

/// Seed of the max-voter-weight record:
/// `[realm, b"max-voter-weight-record", governing_token_mint]`.
pub const MAX_VOTER_WEIGHT_RECORD_SEED: [u8; 23] = [
    109, 97, 120, 45, 118, 111, 116, 101, 114, 45, 119, 101, 105, 103, 104, 116, 45, 114, 101,
    99, 111, 114, 100,
];

/// The registrar's seeds for `realm` and `mint`.
pub open spec fn registrar_seeds(realm: Seq<u8>, mint: Seq<u8>) -> Seq<Seq<u8>> {
    seq![realm, REGISTRAR_SEED@, mint]
}

/// The max-voter-weight record's seeds for `realm` and `mint`.
pub open spec fn max_voter_weight_record_seeds(realm: Seq<u8>, mint: Seq<u8>) -> Seq<Seq<u8>> {
    seq![realm, MAX_VOTER_WEIGHT_RECORD_SEED@, mint]
}

/// The seeds of `voter`'s voter-weight record for `realm` and `mint`.
pub open spec fn voter_weight_record_seeds(realm: Seq<u8>, mint: Seq<u8>, voter: Seq<u8>) -> Seq<Seq<u8>> {
    seq![VOTER_WEIGHT_RECORD_SEED@, realm, mint, voter]
}

} // verus!
