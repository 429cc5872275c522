//! Builder of `Release` instructions.

use vstd::prelude::*;
use crate::common::PROTOCOL_CONFIG_SEED;
use crate::escrow::discriminator::{ID, RELEASE};
use crate::escrow::processor::deposit::vault_seeds;
use crate::escrow::instruction_builder::deposit::{AccountMeta, Instruction, meta_is};
use crate::layout::copy_bytes;
use crate::program::{find_program_address, program_address};

pub use crate::escrow::instruction_builder::deposit::derive_vault_pda;

verus! {

/// The seeds of the protocol configuration.
pub open spec fn protocol_config_seeds() -> Seq<Seq<u8>> {
    seq![PROTOCOL_CONFIG_SEED@]
}

/// The protocol-configuration PDA under the competition program
/// `core_program_id`, or `None` when the search finds no address.
pub fn derive_protocol_config_pda(core_program_id: &[u8; 32]) -> (r: Option<([u8; 32], u8)>)
    ensures
        (r is Some) == (program_address(protocol_config_seeds(), core_program_id@) is Some),
        r matches Some(p) ==> program_address(protocol_config_seeds(), core_program_id@) == Some((p.0@, p.1)),
{
    let mut seeds: Vec<Vec<u8>> = Vec::new();
    seeds.push(copy_bytes(&PROTOCOL_CONFIG_SEED));
    assert(crate::program::seeds_view(seeds@) =~= protocol_config_seeds());
    find_program_address(&seeds, core_program_id)
}

/// Builds a `Release` of `depositor`'s vault, signed by `crank`; gives the
/// instruction and the vault address (`None` when an address search finds
/// none).
pub fn build_release(
    depositor: &[u8; 32],
    authority: &[u8; 32],
    crank: &[u8; 32],
    competition: &[u8; 32],
    participant_record: &[u8; 32],
    treasury: &[u8; 32],
    core_program_id: &[u8; 32],
) -> (r: Option<(Instruction, [u8; 32])>)
    ensures
        (r is Some) == (program_address(vault_seeds(competition@, depositor@), ID@) is Some
            && program_address(protocol_config_seeds(), core_program_id@) is Some),
        r matches Some(p) ==> {
            let vault = program_address(vault_seeds(competition@, depositor@), ID@).unwrap().0;
            let config = program_address(protocol_config_seeds(), core_program_id@).unwrap().0;
            &&& p.1@ == vault
            &&& p.0.program_id@ == ID@
            &&& p.0.data@ == RELEASE@
            &&& p.0.accounts@.len() == 8
            &&& meta_is(p.0.accounts@[0], vault, false, true)
            &&& meta_is(p.0.accounts@[1], authority@, false, true)
            &&& meta_is(p.0.accounts@[2], depositor@, false, true)
            &&& meta_is(p.0.accounts@[3], crank@, true, false)
            &&& meta_is(p.0.accounts@[4], competition@, false, false)
            &&& meta_is(p.0.accounts@[5], participant_record@, false, false)
            &&& meta_is(p.0.accounts@[6], config, false, false)
            &&& meta_is(p.0.accounts@[7], treasury@, false, true)
        },
{
    let (vault, _b1) = match derive_vault_pda(competition, depositor) {
        Some(p) => p,
        None => return None,
    };
    let (config, _b2) = match derive_protocol_config_pda(core_program_id) {
        Some(p) => p,
        None => return None,
    };
    let mut accounts: Vec<AccountMeta> = Vec::new();
    accounts.push(AccountMeta::new(vault, false));
    accounts.push(AccountMeta::new(*authority, false));
    accounts.push(AccountMeta::new(*depositor, false));
    accounts.push(AccountMeta::new_readonly(*crank, true));
    accounts.push(AccountMeta::new_readonly(*competition, false));
    accounts.push(AccountMeta::new_readonly(*participant_record, false));
    accounts.push(AccountMeta::new_readonly(config, false));
    accounts.push(AccountMeta::new(*treasury, false));
    Some((Instruction { program_id: ID, accounts, data: copy_bytes(&RELEASE) }, vault))
}

} // verus!
