//! Instruction arguments of the escrow program.

use vstd::prelude::*;
use crate::layout::{read_u64, u64_at};
use crate::program::ProgramError;

verus! {

/// Arguments of `Deposit`: the lamports to lock into the vault.
#[derive(Clone, Copy, Debug, PartialEq, Eq, Structural)]
pub struct DepositArgs {
    /// Bid amount in lamports; must be non-zero.
    pub amount: u64,
}

impl DepositArgs {
    pub const LEN: usize = 8;

    /// Reads the arguments: exactly `LEN` bytes, the little-endian amount.
    pub fn load(bytes: &[u8]) -> (r: Result<DepositArgs, ProgramError>)
        ensures
            (r is Ok) == (bytes@.len() == 8),
            r matches Ok(a) ==> a.amount == u64_at(bytes@, 0),
            r matches Err(e) ==> e == ProgramError::InvalidInstructionData,
    {
        if bytes.len() != 8 {
            return Err(ProgramError::InvalidInstructionData);
        }
        Ok(DepositArgs { amount: read_u64(bytes, 0) })
    }
}

} // verus!
