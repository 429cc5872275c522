//! The part of an SPL Governance realm that the plugin reads: its authority.
//!
//! A realm is Borsh-encoded; up to the authority the layout is fixed but for
//! the optional council mint:
//!
//! ```text
//!  [0]        account_type                                 u8
//!  [1..33]    community_mint                               [u8; 32]
//!  [33..58]   config: two legacy bytes, 6 reserved bytes,
//!             min_community_weight_to_create_governance u64,
//!             community_mint_max_voter_weight_source (tag u8, value u64)
//!  [58]       config.council_mint                          Option<[u8; 32]>
//!  then       reserved [u8; 6], legacy u16
//!  then       authority                                    Option<[u8; 32]>
//! ```

use vstd::prelude::*;
use crate::layout::{addr_at, read_address, read_u8};

verus! {

/// Offset of the council mint's option tag.
pub const REALM_COUNCIL_MINT: usize = 58;
/// Offset of the authority's option tag when the realm has no council mint.
pub const REALM_AUTHORITY_NO_COUNCIL: usize = 67;
/// Offset of the authority's option tag when the realm has a council mint.
pub const REALM_AUTHORITY_WITH_COUNCIL: usize = 99;

/// Offset of the authority's option tag in realm data `d`.
pub open spec fn realm_authority_offset(d: Seq<u8>) -> int {
    if d[REALM_COUNCIL_MINT as int] == 1 {
        REALM_AUTHORITY_WITH_COUNCIL as int
    } else {
        REALM_AUTHORITY_NO_COUNCIL as int
    }
}

/// The authority that realm data `d` records: `None` when `d` is not a
/// well-formed realm up to its authority, `Some(None)` when the realm has no
/// authority, `Some(Some(a))` when its authority is `a`.
pub open spec fn realm_authority(d: Seq<u8>) -> Option<Option<Seq<u8>>> {
    if d.len() <= REALM_COUNCIL_MINT || d[REALM_COUNCIL_MINT as int] > 1 {
        None
    } else {
        let t = realm_authority_offset(d);
        if d.len() <= t || d[t] > 1 {
            None
        } else if d[t] == 0 {
            Some(None)
        } else if d.len() < t + 33 {
            None
        } else {
            Some(Some(addr_at(d, t + 1)))
        }
    }
}

/// Reads the authority of the realm held in `data`.
pub fn read_realm_authority(data: &[u8]) -> (r: Option<Option<[u8; 32]>>)
    ensures
        match realm_authority(data@) {
            None => r is None,
            Some(None) => r == Some(None::<[u8; 32]>),
            Some(Some(a)) => r matches Some(Some(x)) && x@ == a,
        },
{
    if data.len() <= REALM_COUNCIL_MINT {
        return None;
    }
    let council = read_u8(data, REALM_COUNCIL_MINT);
    if council > 1 {
        return None;
    }
    let t: usize = if council == 1 { REALM_AUTHORITY_WITH_COUNCIL } else { REALM_AUTHORITY_NO_COUNCIL };
    if data.len() <= t {
        return None;
    }
    let tag = read_u8(data, t);
    if tag > 1 {
        None
    } else if tag == 0 {
        Some(None)
    } else if data.len() < t + 33 {
        None
    } else {
        Some(Some(read_address(data, t + 1)))
    }
}

} // verus!
