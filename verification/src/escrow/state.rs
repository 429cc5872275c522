//! Account layout of the escrow program.

use vstd::prelude::*;
use crate::layout::{addr_at, bytes_at, read_array, read_u64, read_u8, u64_at, u8_at};

verus! {

pub const VAULT_DISCRIMINATOR: usize = 0;
pub const VAULT_COMPETITION: usize = 8;
pub const VAULT_DEPOSITOR: usize = 40;
pub const VAULT_AMOUNT: usize = 72;
pub const VAULT_BUMP: usize = 80;
pub const VAULT_PAD: usize = 81;
/// Size of an `EscrowVault` account.
pub const ESCROW_VAULT_LEN: usize = 88;

pub open spec fn vault_discriminator(d: Seq<u8>) -> Seq<u8> { bytes_at(d, VAULT_DISCRIMINATOR as int, 8) }
pub open spec fn vault_competition(d: Seq<u8>) -> Seq<u8> { addr_at(d, VAULT_COMPETITION as int) }
pub open spec fn vault_depositor(d: Seq<u8>) -> Seq<u8> { addr_at(d, VAULT_DEPOSITOR as int) }
pub open spec fn vault_amount(d: Seq<u8>) -> u64 { u64_at(d, VAULT_AMOUNT as int) }
pub open spec fn vault_bump(d: Seq<u8>) -> u8 { u8_at(d, VAULT_BUMP as int) }

/// Per-bidder SOL custody account of one competition. The vault holds the
/// rent-exempt reserve plus `amount`, the cumulative bid. Seeds:
/// `[VAULT_SEED, competition, depositor]`.
pub struct EscrowVault {
    pub discriminator: [u8; 8],
    pub competition: [u8; 32],
    pub depositor: [u8; 32],
    pub amount: u64,
    pub bump: u8,
    pub _pad: [u8; 7],
}

impl EscrowVault {
    pub const LEN: usize = 88;

    /// Views `data` as an `EscrowVault`; `None` when its size is not `LEN`.
    pub fn from_bytes(data: &[u8]) -> (r: Option<EscrowVault>)
        ensures
            (r is Some) == (data@.len() == ESCROW_VAULT_LEN),
            r matches Some(s) ==> {
                &&& s.discriminator@ == vault_discriminator(data@)
                &&& s.competition@ == vault_competition(data@)
                &&& s.depositor@ == vault_depositor(data@)
                &&& s.amount == vault_amount(data@)
                &&& s.bump == vault_bump(data@)
                &&& s._pad@ == bytes_at(data@, VAULT_PAD as int, 7)
            },
    {
        if data.len() != ESCROW_VAULT_LEN {
            return None;
        }
        Some(EscrowVault {
            discriminator: read_array::<8>(data, VAULT_DISCRIMINATOR),
            competition: read_array::<32>(data, VAULT_COMPETITION),
            depositor: read_array::<32>(data, VAULT_DEPOSITOR),
            amount: read_u64(data, VAULT_AMOUNT),
            bump: read_u8(data, VAULT_BUMP),
            _pad: read_array::<7>(data, VAULT_PAD),
        })
    }
}

} // verus!
