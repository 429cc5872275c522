//! Builder of `Refund` instructions.

use vstd::prelude::*;
use crate::common::PARTICIPANT_SEED;
use crate::escrow::discriminator::{ID, REFUND};
use crate::escrow::processor::deposit::vault_seeds;
use crate::escrow::instruction_builder::deposit::{AccountMeta, Instruction, meta_is};
use crate::layout::copy_bytes;
use crate::program::{find_program_address, program_address, seeds3};

pub use crate::escrow::instruction_builder::deposit::derive_vault_pda;

verus! {

/// The seeds of the participant record of `participant` in `competition`.
pub open spec fn participant_seeds(competition: Seq<u8>, participant: Seq<u8>) -> Seq<Seq<u8>> {
    seq![PARTICIPANT_SEED@, competition, participant]
}

/// The participant-record PDA of `depositor` in `competition` under the
/// competition program `core_program_id`, or `None` when the search finds no
/// address.
pub fn derive_participant_record_pda(competition: &[u8; 32], depositor: &[u8; 32], core_program_id: &[u8; 32]) -> (r: Option<([u8; 32], u8)>)
    ensures
        (r is Some) == (program_address(participant_seeds(competition@, depositor@), core_program_id@) is Some),
        r matches Some(p) ==> program_address(participant_seeds(competition@, depositor@), core_program_id@) == Some((p.0@, p.1)),
{
    let seeds = seeds3(&PARTICIPANT_SEED, competition, depositor);
    find_program_address(&seeds, core_program_id)
}

/// Builds a `Refund` for `depositor`; gives the instruction and the vault
/// address (`None` when an address search finds none).
pub fn build_refund(depositor: &[u8; 32], competition: &[u8; 32], core_program_id: &[u8; 32]) -> (r: Option<(Instruction, [u8; 32])>)
    ensures
        (r is Some) == (program_address(vault_seeds(competition@, depositor@), ID@) is Some
            && program_address(participant_seeds(competition@, depositor@), core_program_id@) is Some),
        r matches Some(p) ==> {
            let vault = program_address(vault_seeds(competition@, depositor@), ID@).unwrap().0;
            let record = program_address(participant_seeds(competition@, depositor@), core_program_id@).unwrap().0;
            &&& p.1@ == vault
            &&& p.0.program_id@ == ID@
            &&& p.0.data@ == REFUND@
            &&& p.0.accounts@.len() == 4
            &&& meta_is(p.0.accounts@[0], vault, false, true)
            &&& meta_is(p.0.accounts@[1], depositor@, true, true)
            &&& meta_is(p.0.accounts@[2], competition@, false, false)
            &&& meta_is(p.0.accounts@[3], record, false, false)
        },
{
    let (vault, _b1) = match derive_vault_pda(competition, depositor) {
        Some(p) => p,
        None => return None,
    };
    let (record, _b2) = match derive_participant_record_pda(competition, depositor, core_program_id) {
        Some(p) => p,
        None => return None,
    };
    let mut accounts: Vec<AccountMeta> = Vec::new();
    accounts.push(AccountMeta::new(vault, false));
    accounts.push(AccountMeta::new(*depositor, true));
    accounts.push(AccountMeta::new_readonly(*competition, false));
    accounts.push(AccountMeta::new_readonly(record, false));
    Some((Instruction { program_id: ID, accounts, data: copy_bytes(&REFUND) }, vault))
}

} // verus!
