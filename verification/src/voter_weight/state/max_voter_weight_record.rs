//! The governance add-in's `MaxVoterWeightRecord` and its Borsh encoding:
//! discriminator, realm, governing token mint, `max_voter_weight` (u64 LE),
//! expiry (`Option<u64>`), 8 reserved bytes.

use vstd::prelude::*;
use crate::layout::{lemma_le_widths, lemma_put_concat, put_bytes, spec_u64_le, write_bytes, zeros};
use crate::voter_weight::state::voter_weight_record::{encode_option_u64, option_u64_bytes};

verus! {

/// Allocation of a max-voter-weight record: its encoding with expiry `Some`.
pub const MAX_VOTER_WEIGHT_RECORD_SIZE: usize = 97;

/// The Borsh encoding of a max-voter-weight record, reserved bytes zero.
pub open spec fn max_voter_weight_record_bytes(
    discriminator: Seq<u8>,
    realm: Seq<u8>,
    mint: Seq<u8>,
    max_voter_weight: u64,
    expiry: Option<u64>,
) -> Seq<u8> {
    discriminator + realm + mint + spec_u64_le(max_voter_weight) + option_u64_bytes(expiry) + zeros(8)
}

/// Writes the Borsh encoding of a max-voter-weight record at the start of
/// `data`; bytes past the encoding are left as they were.
pub fn write_max_voter_weight_record(
    data: &mut [u8],
    discriminator: &[u8; 8],
    realm: &[u8; 32],
    mint: &[u8; 32],
    max_voter_weight: u64,
    expiry: Option<u64>,
)
    requires
        old(data)@.len() >= MAX_VOTER_WEIGHT_RECORD_SIZE,
    ensures
        final(data)@ == put_bytes(
            old(data)@,
            0,
            max_voter_weight_record_bytes(discriminator@, realm@, mint@, max_voter_weight, expiry),
        ),
{
    let ghost d0 = data@;
    let e = encode_option_u64(expiry);
    let w = vstd::bytes::u64_to_le_bytes(max_voter_weight);
    let z = [0u8; 8];
    proof {
        lemma_le_widths(0, 0, max_voter_weight);
        match expiry {
            Some(x) => lemma_le_widths(0, 0, x),
            None => {},
        }
    }
    let ghost p1 = discriminator@;
    let ghost p2 = p1 + realm@;
    let ghost p3 = p2 + mint@;
    let ghost p4 = p3 + w@;
    let ghost p5 = p4 + e@;
    let ghost p6 = p5 + z@;

    write_bytes(data, 0, discriminator);
    write_bytes(data, 8, realm);
    proof { lemma_put_concat(d0, 0, p1, realm@); }
    write_bytes(data, 40, mint);
    proof { lemma_put_concat(d0, 0, p2, mint@); }
    write_bytes(data, 72, w.as_slice());
    proof { lemma_put_concat(d0, 0, p3, w@); }
    write_bytes(data, 80, e.as_slice());
    proof { lemma_put_concat(d0, 0, p4, e@); }
    let c: usize = 80 + e.len();
    write_bytes(data, c, &z);
    proof { lemma_put_concat(d0, 0, p5, z@); }
    assert(z@ =~= zeros(8));
    assert(p6 =~= max_voter_weight_record_bytes(discriminator@, realm@, mint@, max_voter_weight, expiry));
}

} // verus!
