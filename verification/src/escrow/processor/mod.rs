//! Instruction processors of the escrow program.

pub mod deposit;
pub mod release;
pub mod refund;
