//! The registrar: the plugin's configuration for one realm and mint.

use vstd::prelude::*;
use crate::layout::{addr_at, address_eq, bytes_at, bytes_equal_at, read_array, read_u8, u8_at};
use crate::program::{AccountState, ProgramError};
use crate::voter_weight::discriminator::{ID, REGISTRAR};
use crate::voter_weight::error::{PluginError, plugin_err, plugin_error};

verus! {

pub const REG_DISCRIMINATOR: usize = 0;
pub const REG_GOVERNANCE_PROGRAM_ID: usize = 8;
pub const REG_REALM: usize = 40;
pub const REG_GOVERNING_TOKEN_MINT: usize = 72;
pub const REG_PREV_PLUGIN_PROGRAM_ID: usize = 104;
pub const REG_HAS_PREV_PLUGIN: usize = 136;
pub const REG_PAD0: usize = 137;
pub const REG_TYCHE_ESCROW_PROGRAM_ID: usize = 144;
pub const REG_COMPETITION: usize = 176;
pub const REG_BUMP: usize = 208;
pub const REG_PAD1: usize = 209;
pub const REG_RESERVED: usize = 216;
/// Size of a `Registrar` account.
pub const REGISTRAR_LEN: usize = 344;

pub open spec fn reg_discriminator(d: Seq<u8>) -> Seq<u8> { bytes_at(d, REG_DISCRIMINATOR as int, 8) }
pub open spec fn reg_governance_program_id(d: Seq<u8>) -> Seq<u8> { addr_at(d, REG_GOVERNANCE_PROGRAM_ID as int) }
pub open spec fn reg_realm(d: Seq<u8>) -> Seq<u8> { addr_at(d, REG_REALM as int) }
pub open spec fn reg_governing_token_mint(d: Seq<u8>) -> Seq<u8> { addr_at(d, REG_GOVERNING_TOKEN_MINT as int) }
pub open spec fn reg_prev_plugin_program_id(d: Seq<u8>) -> Seq<u8> { addr_at(d, REG_PREV_PLUGIN_PROGRAM_ID as int) }
pub open spec fn reg_has_prev_plugin(d: Seq<u8>) -> u8 { u8_at(d, REG_HAS_PREV_PLUGIN as int) }
pub open spec fn reg_tyche_escrow_program_id(d: Seq<u8>) -> Seq<u8> { addr_at(d, REG_TYCHE_ESCROW_PROGRAM_ID as int) }
pub open spec fn reg_competition(d: Seq<u8>) -> Seq<u8> { addr_at(d, REG_COMPETITION as int) }
pub open spec fn reg_bump(d: Seq<u8>) -> u8 { u8_at(d, REG_BUMP as int) }

/// Registrar PDA — one per (realm, governing token mint). Seeds:
/// `[realm, b"registrar", governing_token_mint]`.
pub struct Registrar {
    pub discriminator: [u8; 8],
    /// The `spl-governance` program the realm belongs to.
    pub governance_program_id: [u8; 32],
    pub realm: [u8; 32],
    pub governing_token_mint: [u8; 32],
    /// Previous plugin in the voter-weight chain (zero = standalone).
    pub prev_plugin_program_id: [u8; 32],
    pub has_prev_plugin: u8,
    pub _pad0: [u8; 7],
    /// The escrow program whose vaults give voting power.
    pub tyche_escrow_program_id: [u8; 32],
    /// The competition this governance instance is scoped to.
    pub competition: [u8; 32],
    pub bump: u8,
    pub _pad1: [u8; 7],
    pub reserved: [u8; 128],
}

impl Registrar {
    pub const LEN: usize = 344;

    /// Views `data` as a `Registrar`; `None` when its size is not `LEN`.
    pub fn from_bytes(data: &[u8]) -> (r: Option<Registrar>)
        ensures
            (r is Some) == (data@.len() == REGISTRAR_LEN),
            r matches Some(s) ==> {
                &&& s.discriminator@ == reg_discriminator(data@)
                &&& s.governance_program_id@ == reg_governance_program_id(data@)
                &&& s.realm@ == reg_realm(data@)
                &&& s.governing_token_mint@ == reg_governing_token_mint(data@)
                &&& s.prev_plugin_program_id@ == reg_prev_plugin_program_id(data@)
                &&& s.has_prev_plugin == reg_has_prev_plugin(data@)
                &&& s._pad0@ == bytes_at(data@, REG_PAD0 as int, 7)
                &&& s.tyche_escrow_program_id@ == reg_tyche_escrow_program_id(data@)
                &&& s.competition@ == reg_competition(data@)
                &&& s.bump == reg_bump(data@)
                &&& s._pad1@ == bytes_at(data@, REG_PAD1 as int, 7)
                &&& s.reserved@ == bytes_at(data@, REG_RESERVED as int, 128)
            },
    {
        if data.len() != REGISTRAR_LEN {
            return None;
        }
        Some(Registrar {
            discriminator: read_array::<8>(data, REG_DISCRIMINATOR),
            governance_program_id: read_array::<32>(data, REG_GOVERNANCE_PROGRAM_ID),
            realm: read_array::<32>(data, REG_REALM),
            governing_token_mint: read_array::<32>(data, REG_GOVERNING_TOKEN_MINT),
            prev_plugin_program_id: read_array::<32>(data, REG_PREV_PLUGIN_PROGRAM_ID),
            has_prev_plugin: read_u8(data, REG_HAS_PREV_PLUGIN),
            _pad0: read_array::<7>(data, REG_PAD0),
            tyche_escrow_program_id: read_array::<32>(data, REG_TYCHE_ESCROW_PROGRAM_ID),
            competition: read_array::<32>(data, REG_COMPETITION),
            bump: read_u8(data, REG_BUMP),
            _pad1: read_array::<7>(data, REG_PAD1),
            reserved: read_array::<128>(data, REG_RESERVED),
        })
    }
}

/// The error that an instruction reports for a registrar account owned by
/// `owner` and holding `data`, if any: it must be this program's, of the
/// registrar's size, and carry the registrar discriminator.
pub open spec fn registrar_error(owner: Seq<u8>, data: Seq<u8>) -> Option<ProgramError> {
    if owner != ID@ {
        Some(ProgramError::InvalidAccountOwner)
    } else if data.len() != REGISTRAR_LEN {
        Some(plugin_err(PluginError::InvalidRegistrar))
    } else if reg_discriminator(data) != REGISTRAR@ {
        Some(plugin_err(PluginError::InvalidDiscriminator))
    } else {
        None
    }
}

/// Checks that `account` holds a registrar of this program.
pub fn check_registrar(account: &AccountState) -> (r: Result<(), ProgramError>)
    ensures
        match registrar_error(account.owner@, account.data@) {
            Some(e) => r matches Err(x) && x == e,
            None => r is Ok,
        },
{
    if !address_eq(&account.owner, &ID) {
        return Err(ProgramError::InvalidAccountOwner);
    }
    let data = account.data.as_slice();
    if data.len() != REGISTRAR_LEN {
        return Err(plugin_error(PluginError::InvalidRegistrar));
    }
    if !bytes_equal_at(data, REG_DISCRIMINATOR, &REGISTRAR) {
        return Err(plugin_error(PluginError::InvalidDiscriminator));
    }
    Ok(())
}

} // verus!
