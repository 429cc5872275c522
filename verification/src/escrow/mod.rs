//! The escrow program: per-bidder SOL custody for a competition, released to
//! the seller when the bidder wins and refunded otherwise.

pub mod args;
pub mod discriminator;
pub mod entrypoint;
pub mod error;
pub mod instruction_builder;
pub mod instructions;
pub mod laws;
pub mod processor;
pub mod state;
