//! The governance add-in's `VoterWeightRecord` and its Borsh encoding.
//!
//! ```text
//!  [0..8]     account_discriminator  [u8; 8]
//!  [8..40]    realm                  [u8; 32]
//!  [40..72]   governing_token_mint   [u8; 32]
//!  [72..104]  governing_token_owner  [u8; 32]
//!  [104..112] voter_weight           u64 LE
//!  then       expiry                 Option<u64>   (tag byte, value if Some)
//!  then       weight_action          Option<u8>    (tag byte, value if Some)
//!  then       weight_action_target   Option<[u8; 32]>
//!  then       reserved               [u8; 8]
//! ```

use vstd::prelude::*;
use crate::layout::{lemma_le_widths, lemma_put_concat, put_bytes, spec_u64_le, write_bytes, zeros};
use crate::voter_weight::discriminator::VOTER_WEIGHT_RECORD;

verus! {

/// Largest encoding of a voter-weight record: every option `Some`.
pub const VOTER_WEIGHT_RECORD_MAX_SIZE: usize = 164;

/// Action for which the voter weight is provided; its byte is its ordinal in
/// the governance add-in interface.
#[derive(Clone, Copy, Debug, PartialEq, Eq, Structural)]
pub enum VoterWeightAction {
    CastVote,
    CommentProposal,
    CreateGovernance,
    CreateProposal,
    SignOffProposal,
}

/// The byte that encodes `a`.
pub open spec fn action_byte(a: VoterWeightAction) -> u8 {
    match a {
        VoterWeightAction::CastVote => 0,
        VoterWeightAction::CommentProposal => 1,
        VoterWeightAction::CreateGovernance => 2,
        VoterWeightAction::CreateProposal => 3,
        VoterWeightAction::SignOffProposal => 4,
    }
}

impl VoterWeightAction {
    /// The byte that encodes this action.
    pub fn as_u8(self) -> (b: u8)
        ensures
            b == action_byte(self),
    {
        match self {
            VoterWeightAction::CastVote => 0,
            VoterWeightAction::CommentProposal => 1,
            VoterWeightAction::CreateGovernance => 2,
            VoterWeightAction::CreateProposal => 3,
            VoterWeightAction::SignOffProposal => 4,
        }
    }
}

/// Borsh encoding of an `Option<u64>`.
pub open spec fn option_u64_bytes(o: Option<u64>) -> Seq<u8> {
    match o {
        None => seq![0u8],
        Some(v) => seq![1u8] + spec_u64_le(v),
    }
}

/// Borsh encoding of an `Option<VoterWeightAction>`.
pub open spec fn option_action_bytes(o: Option<VoterWeightAction>) -> Seq<u8> {
    match o {
        None => seq![0u8],
        Some(a) => seq![1u8, action_byte(a)],
    }
}

/// Borsh encoding of an optional address.
pub open spec fn option_address_bytes(o: Option<Seq<u8>>) -> Seq<u8> {
    match o {
        None => seq![0u8],
        Some(t) => seq![1u8] + t,
    }
}

/// The view of an optional address.
pub open spec fn option_address_view(o: Option<[u8; 32]>) -> Option<Seq<u8>> {
    match o {
        None => None,
        Some(t) => Some(t@),
    }
}

/// The Borsh encoding of a voter-weight record, reserved bytes zero.
pub open spec fn voter_weight_record_bytes(
    discriminator: Seq<u8>,
    realm: Seq<u8>,
    mint: Seq<u8>,
    owner: Seq<u8>,
    voter_weight: u64,
    expiry: Option<u64>,
    action: Option<VoterWeightAction>,
    target: Option<Seq<u8>>,
) -> Seq<u8> {
    discriminator + realm + mint + owner + spec_u64_le(voter_weight) + option_u64_bytes(expiry)
        + option_action_bytes(action) + option_address_bytes(target) + zeros(8)
}

/// Encodes an `Option<u64>`.
pub fn encode_option_u64(o: Option<u64>) -> (v: Vec<u8>)
    ensures
        v@ == option_u64_bytes(o),
{
    let mut v: Vec<u8> = Vec::new();
    match o {
        None => {
            v.push(0u8);
            assert(v@ =~= option_u64_bytes(o));
        },
        Some(x) => {
            v.push(1u8);
            let mut b = vstd::bytes::u64_to_le_bytes(x);
            v.append(&mut b);
            assert(v@ =~= option_u64_bytes(o));
        },
    }
    v
}

/// Encodes an `Option<VoterWeightAction>`.
pub fn encode_option_action(o: Option<VoterWeightAction>) -> (v: Vec<u8>)
    ensures
        v@ == option_action_bytes(o),
{
    let mut v: Vec<u8> = Vec::new();
    match o {
        None => {
            v.push(0u8);
        },
        Some(a) => {
            v.push(1u8);
            v.push(a.as_u8());
        },
    }
    assert(v@ =~= option_action_bytes(o));
    v
}

/// Encodes an optional address.
pub fn encode_option_address(o: Option<[u8; 32]>) -> (v: Vec<u8>)
    ensures
        v@ == option_address_bytes(option_address_view(o)),
{
    let mut v: Vec<u8> = Vec::new();
    match o {
        None => {
            v.push(0u8);
            assert(v@ =~= option_address_bytes(option_address_view(o)));
        },
        Some(t) => {
            v.push(1u8);
            let mut b = crate::layout::copy_bytes(&t);
            v.append(&mut b);
            assert(v@ =~= option_address_bytes(option_address_view(o)));
        },
    }
    v
}

/// Writes the Borsh encoding of a voter-weight record at the start of `data`;
/// bytes past the encoding are left as they were.
pub fn write_voter_weight_record(
    data: &mut [u8],
    discriminator: &[u8; 8],
    realm: &[u8; 32],
    mint: &[u8; 32],
    owner: &[u8; 32],
    voter_weight: u64,
    expiry: Option<u64>,
    action: Option<VoterWeightAction>,
    target: Option<[u8; 32]>,
)
    requires
        old(data)@.len() >= VOTER_WEIGHT_RECORD_MAX_SIZE,
    ensures
        final(data)@ == put_bytes(
            old(data)@,
            0,
            voter_weight_record_bytes(
                discriminator@,
                realm@,
                mint@,
                owner@,
                voter_weight,
                expiry,
                action,
                option_address_view(target),
            ),
        ),
{
    let ghost d0 = data@;
    let e = encode_option_u64(expiry);
    let a = encode_option_action(action);
    let t = encode_option_address(target);
    let w = vstd::bytes::u64_to_le_bytes(voter_weight);
    let z = [0u8; 8];
    proof {
        lemma_le_widths(0, 0, voter_weight);
        match expiry {
            Some(x) => lemma_le_widths(0, 0, x),
            None => {},
        }
    }
    assert(e@.len() <= 9 && a@.len() <= 2 && t@.len() <= 33);
    let ghost p1 = discriminator@;
    let ghost p2 = p1 + realm@;
    let ghost p3 = p2 + mint@;
    let ghost p4 = p3 + owner@;
    let ghost p5 = p4 + w@;
    let ghost p6 = p5 + e@;
    let ghost p7 = p6 + a@;
    let ghost p8 = p7 + t@;
    let ghost p9 = p8 + z@;

    write_bytes(data, 0, discriminator);
    assert(p1 =~= Seq::empty() + discriminator@);
    write_bytes(data, 8, realm);
    proof { lemma_put_concat(d0, 0, p1, realm@); }
    write_bytes(data, 40, mint);
    proof { lemma_put_concat(d0, 0, p2, mint@); }
    write_bytes(data, 72, owner);
    proof { lemma_put_concat(d0, 0, p3, owner@); }
    write_bytes(data, 104, w.as_slice());
    proof { lemma_put_concat(d0, 0, p4, w@); }
    let mut c: usize = 112;
    write_bytes(data, c, e.as_slice());
    proof { lemma_put_concat(d0, 0, p5, e@); }
    c = c + e.len();
    write_bytes(data, c, a.as_slice());
    proof { lemma_put_concat(d0, 0, p6, a@); }
    c = c + a.len();
    write_bytes(data, c, t.as_slice());
    proof { lemma_put_concat(d0, 0, p7, t@); }
    c = c + t.len();
    write_bytes(data, c, &z);
    proof { lemma_put_concat(d0, 0, p8, z@); }
    assert(z@ =~= zeros(8));
    assert(p9 =~= voter_weight_record_bytes(
        discriminator@,
        realm@,
        mint@,
        owner@,
        voter_weight,
        expiry,
        action,
        option_address_view(target),
    ));
}

/// The fields of a governance voter-weight record.
pub struct VoterWeightRecordData {
    pub account_discriminator: [u8; 8],
    pub realm: [u8; 32],
    pub governing_token_mint: [u8; 32],
    pub governing_token_owner: [u8; 32],
    pub voter_weight: u64,
    pub voter_weight_expiry: Option<u64>,
    pub weight_action: Option<VoterWeightAction>,
    pub weight_action_target: Option<[u8; 32]>,
    pub reserved: [u8; 8],
}

/// A voter-weight record with its deterministic serialization.
pub struct VoterWeightRecord {
    pub inner: VoterWeightRecordData,
}

impl VoterWeightRecord {
    /// Serializes the record at the start of `data`, under the
    /// `VoterWeightRecord` discriminator and with zero reserved bytes.
    pub fn write_to(&self, data: &mut [u8])
        requires
            old(data)@.len() >= VOTER_WEIGHT_RECORD_MAX_SIZE,
        ensures
            final(data)@ == put_bytes(
                old(data)@,
                0,
                voter_weight_record_bytes(
                    VOTER_WEIGHT_RECORD@,
                    self.inner.realm@,
                    self.inner.governing_token_mint@,
                    self.inner.governing_token_owner@,
                    self.inner.voter_weight,
                    self.inner.voter_weight_expiry,
                    self.inner.weight_action,
                    option_address_view(self.inner.weight_action_target),
                ),
            ),
    {
        let main = &self.inner;
        write_voter_weight_record(
            data,
            &VOTER_WEIGHT_RECORD,
            &main.realm,
            &main.governing_token_mint,
            &main.governing_token_owner,
            main.voter_weight,
            main.voter_weight_expiry,
            main.weight_action,
            main.weight_action_target,
        );
    }
}

} // verus!
