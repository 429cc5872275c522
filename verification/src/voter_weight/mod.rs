//! The voter-weight plugin: SPL Governance voting power from escrowed SOL.

pub mod args;
pub mod discriminator;
pub mod entrypoint;
pub mod error;
pub mod instructions;
pub mod laws;
pub mod processor;
pub mod state;
pub mod utils;
