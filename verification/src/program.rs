//! The runtime's view of an instruction: accounts, sysvars, errors and the
//! program-derived addresses that the programs check accounts against.

use vstd::prelude::*;
use crate::layout::{address_eq, copy_bytes};

verus! {

/// What an instruction can read of one account it was given.
pub struct AccountState {
    pub address: [u8; 32],
    pub owner: [u8; 32],
    pub lamports: u64,
    pub data: Vec<u8>,
    pub is_signer: bool,
    pub is_writable: bool,
}

impl AccountState {
    /// Whether the account holds no data.
    pub fn is_data_empty(&self) -> (r: bool)
        ensures
            r == (self.data@.len() == 0),
    {
        self.data.len() == 0
    }
}

/// The fields of the clock sysvar that the programs read.
#[derive(Clone, Copy, Debug, PartialEq, Eq)]
pub struct Clock {
    pub slot: u64,
    pub unix_timestamp: i64,
}

/// Errors an instruction returns to the runtime.
#[derive(Clone, Copy, Debug, PartialEq, Eq, Structural)]
pub enum ProgramError {
    Custom(u32),
    InvalidArgument,
    InvalidInstructionData,
    InvalidAccountData,
    NotEnoughAccountKeys,
    AccountAlreadyInitialized,
    UninitializedAccount,
    MissingRequiredSignature,
    InvalidSeeds,
    InvalidAccountOwner,
    IncorrectAuthority,
}

/// A system-program `CreateAccount` that the program signs for with the seeds
/// of a program-derived address: it allocates `space` zeroed bytes owned by
/// `owner`, funded with the rent-exempt minimum for `space`.
pub struct CreateAccountCpi {
    pub space: u64,
    pub owner: [u8; 32],
    pub signer_seeds: Vec<Vec<u8>>,
}

/// The byte strings of a list of seeds.
pub open spec fn seeds_view(seeds: Seq<Vec<u8>>) -> Seq<Seq<u8>> {
    seeds.map_values(|s: Vec<u8>| s@)
}

/// The program-derived address and bump seed that the runtime's canonical
/// search finds for `seeds` under `program_id`, or `None` where the search
/// finds none.
pub uninterp spec fn program_address(seeds: Seq<Seq<u8>>, program_id: Seq<u8>) -> Option<(Seq<u8>, u8)>;

/// Calls `solana_pubkey::Pubkey::try_find_program_address`.
///
/// Trusted: the result is the value that `program_address` names for the
/// seeds and the program id. The search hashes the seeds with a bump seed
/// that counts down from 255 and keeps the first hash that is off the ed25519
/// curve; it gives `None` when none of the 255 candidates qualifies or when
/// there are 16 or more seeds or a seed longer than 32 bytes.
#[verifier::external_body]
pub fn find_program_address(seeds: &Vec<Vec<u8>>, program_id: &[u8; 32]) -> (r: Option<([u8; 32], u8)>)
    ensures
        (r is Some) == (program_address(seeds_view(seeds@), program_id@) is Some),
        r matches Some(p) ==> program_address(seeds_view(seeds@), program_id@) == Some((p.0@, p.1)),
{
    let refs: Vec<&[u8]> = seeds.iter().map(|s| s.as_slice()).collect();
    let id = solana_sdk::pubkey::Pubkey::new_from_array(*program_id);
    solana_sdk::pubkey::Pubkey::try_find_program_address(&refs, &id).map(|(k, b)| (k.to_bytes(), b))
}

/// The address that `program_address` gives, where there is one.
pub open spec fn pda_address(seeds: Seq<Seq<u8>>, program_id: Seq<u8>) -> Seq<u8> {
    program_address(seeds, program_id).unwrap().0
}

/// The bump seed that `program_address` gives, where there is one.
pub open spec fn pda_bump(seeds: Seq<Seq<u8>>, program_id: Seq<u8>) -> u8 {
    program_address(seeds, program_id).unwrap().1
}

/// Whether `address` is the program-derived address of `seeds`.
pub open spec fn is_pda(seeds: Seq<Seq<u8>>, program_id: Seq<u8>, address: Seq<u8>) -> bool {
    &&& program_address(seeds, program_id) is Some
    &&& pda_address(seeds, program_id) == address
}

/// Derives the address of `seeds` under `program_id` and checks it against
/// `expected`: the bump seed when it matches, `InvalidSeeds` otherwise.
pub fn check_pda(seeds: &Vec<Vec<u8>>, program_id: &[u8; 32], expected: &[u8; 32]) -> (r: Result<u8, ProgramError>)
    ensures
        r == (if is_pda(seeds_view(seeds@), program_id@, expected@) {
            Ok::<u8, ProgramError>(pda_bump(seeds_view(seeds@), program_id@))
        } else {
            Err::<u8, ProgramError>(ProgramError::InvalidSeeds)
        }),
{
    match find_program_address(seeds, program_id) {
        Some((addr, bump)) => {
            if address_eq(&addr, expected) {
                Ok(bump)
            } else {
                Err(ProgramError::InvalidSeeds)
            }
        },
        None => Err(ProgramError::InvalidSeeds),
    }
}

/// A list of seeds from its parts.
pub fn seeds2(a: &[u8], b: &[u8]) -> (r: Vec<Vec<u8>>)
    ensures
        seeds_view(r@) == seq![a@, b@],
{
    let mut r: Vec<Vec<u8>> = Vec::new();
    r.push(copy_bytes(a));
    r.push(copy_bytes(b));
    assert(seeds_view(r@) =~= seq![a@, b@]);
    r
}

/// A list of seeds from its parts.
pub fn seeds3(a: &[u8], b: &[u8], c: &[u8]) -> (r: Vec<Vec<u8>>)
    ensures
        seeds_view(r@) == seq![a@, b@, c@],
{
    let mut r: Vec<Vec<u8>> = Vec::new();
    r.push(copy_bytes(a));
    r.push(copy_bytes(b));
    r.push(copy_bytes(c));
    assert(seeds_view(r@) =~= seq![a@, b@, c@]);
    r
}

/// A list of seeds from its parts.
pub fn seeds4(a: &[u8], b: &[u8], c: &[u8], d: &[u8]) -> (r: Vec<Vec<u8>>)
    ensures
        seeds_view(r@) == seq![a@, b@, c@, d@],
{
    let mut r: Vec<Vec<u8>> = Vec::new();
    r.push(copy_bytes(a));
    r.push(copy_bytes(b));
    r.push(copy_bytes(c));
    r.push(copy_bytes(d));
    assert(seeds_view(r@) =~= seq![a@, b@, c@, d@]);
    r
}

/// `seeds` followed by the one-byte seed `bump`: the seeds that sign for the
/// derived address.
pub fn with_bump(seeds: Vec<Vec<u8>>, bump: u8) -> (r: Vec<Vec<u8>>)
    ensures
        seeds_view(r@) == seeds_view(seeds@).push(seq![bump]),
{
    let mut r = seeds;
    let mut b: Vec<u8> = Vec::new();
    b.push(bump);
    let ghost old_r = seeds_view(r@);
    r.push(b);
    assert(seeds_view(r@) =~= old_r.push(seq![bump]));
    r
}

} // verus!
