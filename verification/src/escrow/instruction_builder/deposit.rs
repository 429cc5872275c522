//! Builder of `Deposit` instructions.

use vstd::prelude::*;
use crate::common::VAULT_SEED;
use crate::escrow::discriminator::{DEPOSIT, ID};
use crate::escrow::processor::deposit::vault_seeds;
use crate::layout::{copy_bytes, spec_u64_le, zeros};
use crate::program::{find_program_address, program_address, seeds3};

verus! {

/// One account of an instruction: its address and whether it signs and is written.
#[derive(Clone, Copy, Debug, PartialEq, Eq)]
pub struct AccountMeta {
    pub pubkey: [u8; 32],
    pub is_signer: bool,
    pub is_writable: bool,
}

impl AccountMeta {
    /// A writable account.
    pub fn new(pubkey: [u8; 32], is_signer: bool) -> (m: AccountMeta)
        ensures
            m.pubkey == pubkey,
            m.is_signer == is_signer,
            m.is_writable,
    {
        AccountMeta { pubkey, is_signer, is_writable: true }
    }

    /// A read-only account.
    pub fn new_readonly(pubkey: [u8; 32], is_signer: bool) -> (m: AccountMeta)
        ensures
            m.pubkey == pubkey,
            m.is_signer == is_signer,
            !m.is_writable,
    {
        AccountMeta { pubkey, is_signer, is_writable: false }
    }
}

/// An instruction for a program: its accounts in order and its data.
pub struct Instruction {
    pub program_id: [u8; 32],
    pub accounts: Vec<AccountMeta>,
    pub data: Vec<u8>,
}

/// Whether `m` names `key` with the given flags.
pub open spec fn meta_is(m: AccountMeta, key: Seq<u8>, is_signer: bool, is_writable: bool) -> bool {
    m.pubkey@ == key && m.is_signer == is_signer && m.is_writable == is_writable
}

/// Calls `solana_system_interface::program::ID`.
///
/// Trusted: the system program's address is 32 zero bytes (it is declared as
/// `11111111111111111111111111111111`).
#[verifier::external_body]
fn system_program_id() -> (r: [u8; 32])
    ensures
        r@ == zeros(32),
{
    solana_system_interface::program::ID.to_bytes()
}

/// The vault PDA of `depositor` in `competition` and its bump, or `None` when
/// the search finds no address.
pub fn derive_vault_pda(competition: &[u8; 32], depositor: &[u8; 32]) -> (r: Option<([u8; 32], u8)>)
    ensures
        (r is Some) == (program_address(vault_seeds(competition@, depositor@), ID@) is Some),
        r matches Some(p) ==> program_address(vault_seeds(competition@, depositor@), ID@) == Some((p.0@, p.1)),
{
    let seeds = seeds3(&VAULT_SEED, competition, depositor);
    find_program_address(&seeds, &ID)
}

/// Builds a `Deposit` of `amount` from `depositor`, whose vault rent `payer`
/// funds; gives the instruction and the vault address (`None` when the vault
/// search finds no address).
pub fn build_deposit(depositor: &[u8; 32], payer: &[u8; 32], competition: &[u8; 32], amount: u64) -> (r: Option<(Instruction, [u8; 32])>)
    ensures
        (r is Some) == (program_address(vault_seeds(competition@, depositor@), ID@) is Some),
        r matches Some(p) ==> {
            let vault = program_address(vault_seeds(competition@, depositor@), ID@).unwrap().0;
            &&& p.1@ == vault
            &&& p.0.program_id@ == ID@
            &&& p.0.data@ == DEPOSIT@ + spec_u64_le(amount)
            &&& p.0.accounts@.len() == 5
            &&& meta_is(p.0.accounts@[0], vault, false, true)
            &&& meta_is(p.0.accounts@[1], depositor@, true, true)
            &&& meta_is(p.0.accounts@[2], payer@, true, true)
            &&& meta_is(p.0.accounts@[3], competition@, false, false)
            &&& meta_is(p.0.accounts@[4], zeros(32), false, false)
        },
{
    let (vault, _bump) = match derive_vault_pda(competition, depositor) {
        Some(p) => p,
        None => return None,
    };
    let mut data = copy_bytes(&DEPOSIT);
    let amount_bytes = vstd::bytes::u64_to_le_bytes(amount);
    let mut tail = amount_bytes;
    data.append(&mut tail);
    let mut accounts: Vec<AccountMeta> = Vec::new();
    accounts.push(AccountMeta::new(vault, false));
    accounts.push(AccountMeta::new(*depositor, true));
    accounts.push(AccountMeta::new(*payer, true));
    accounts.push(AccountMeta::new_readonly(*competition, false));
    accounts.push(AccountMeta::new_readonly(system_program_id(), false));
    Some((Instruction { program_id: ID, accounts, data }, vault))
}

} // verus!
