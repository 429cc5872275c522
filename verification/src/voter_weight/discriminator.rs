//! Discriminators of the voter-weight plugin: the first 8 bytes of
//! `sha256("global:<instruction_name>")` for instructions and of
//! `sha256("account:<AccountName>")` for accounts.

use sha2::Digest;
use vstd::prelude::*;
use vstd::string::StringSliceAdditionalSpecFns;

verus! {

pub const CREATE_REGISTRAR: [u8; 8] = [132, 235, 36, 49, 139, 66, 202, 69];
pub const CREATE_VOTER_WEIGHT_RECORD: [u8; 8] = [184, 249, 133, 178, 88, 152, 250, 186];
pub const UPDATE_VOTER_WEIGHT_RECORD: [u8; 8] = [45, 185, 3, 36, 109, 190, 115, 169];
pub const UPDATE_MAX_VOTER_WEIGHT_RECORD: [u8; 8] = [103, 175, 201, 251, 2, 9, 251, 179];

pub const REGISTRAR: [u8; 8] = [193, 202, 205, 51, 78, 168, 150, 128];
pub const MAX_VOTER_WEIGHT_RECORD: [u8; 8] = [157, 95, 242, 151, 16, 98, 26, 118];

/// Fixed by the governance add-in interface: SPL Governance reads it verbatim.
pub const VOTER_WEIGHT_RECORD: [u8; 8] = [46, 249, 155, 75, 153, 248, 116, 9];

/// Address of the plugin program: `TYGwvLsQWTNgwQcuP4sREXHVinz14WG9caEZecbKTVg`.
pub const ID: [u8; 32] = [
    6, 204, 118, 183, 12, 57, 62, 45, 105, 79, 157, 58, 61, 220, 163, 75, 231, 128, 227, 55,
    219, 246, 138, 190, 61, 20, 208, 201, 93, 200, 126, 55,
];

/// The SHA-256 digest of `data`.
pub uninterp spec fn sha256(data: Seq<u8>) -> Seq<u8>;

/// Calls `sha2::Sha256::digest`.
///
/// Trusted: the result is the SHA-256 digest of the input, which `sha256`
/// names.
#[verifier::external_body]
fn sha256_digest(data: &[u8]) -> (r: [u8; 32])
    ensures
        r@ == sha256(data@),
{
    sha2::Sha256::digest(data).into()
}

/// The 8-byte discriminator of `preimage`: the first 8 bytes of its SHA-256
/// digest (`"global:<instruction>"` or `"account:<Account>"`).
pub fn discriminator(preimage: &str) -> (r: [u8; 8])
    ensures
        r@ == sha256(preimage.spec_bytes()).subrange(0, 8),
{
    let hash = sha256_digest(preimage.as_bytes());
    let mut r = [0u8; 8];
    let mut i: usize = 0;
    while i < 8
        invariant
            i <= 8,
            hash@.len() == 32,
            r@.len() == 8,
            forall|k: int| 0 <= k < i ==> r@[k] == hash@[k],
        decreases 8 - i,
    {
        r[i] = hash[i];
        i = i + 1;
    }
    assert(r@ =~= hash@.subrange(0, 8));
    r
}

} // verus!
