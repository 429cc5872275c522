//! Arguments of `CreateRegistrar`.

use vstd::prelude::*;
use crate::layout::{addr_at, read_address};
use crate::program::ProgramError;

verus! {

/// Arguments of `CreateRegistrar`: three addresses, 96 bytes.
#[derive(Clone, Copy, Debug, PartialEq, Eq)]
pub struct CreateRegistrarArgs {
    /// The `spl-governance` program that owns the realm.
    pub governance_program_id: [u8; 32],
    /// The competition whose vaults give voting power.
    pub competition: [u8; 32],
    /// The escrow program that must own those vaults.
    pub tyche_escrow_program: [u8; 32],
}

impl CreateRegistrarArgs {
    pub const LEN: usize = 96;

    /// Reads the arguments: exactly `LEN` bytes.
    pub fn load(bytes: &[u8]) -> (r: Result<CreateRegistrarArgs, ProgramError>)
        ensures
            (r is Ok) == (bytes@.len() == 96),
            r matches Ok(a) ==> {
                &&& a.governance_program_id@ == addr_at(bytes@, 0)
                &&& a.competition@ == addr_at(bytes@, 32)
                &&& a.tyche_escrow_program@ == addr_at(bytes@, 64)
            },
            r matches Err(e) ==> e == ProgramError::InvalidInstructionData,
    {
        if bytes.len() != 96 {
            return Err(ProgramError::InvalidInstructionData);
        }
        Ok(CreateRegistrarArgs {
            governance_program_id: read_address(bytes, 0),
            competition: read_address(bytes, 32),
            tyche_escrow_program: read_address(bytes, 64),
        })
    }
}

} // verus!
