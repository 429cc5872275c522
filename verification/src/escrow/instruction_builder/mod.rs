//! Client-side builders of escrow instructions.

pub mod deposit;
pub mod refund;
pub mod release;
