//! The competition program: lifecycle of a competition and the protocol
//! configuration that governs it.

pub mod discriminator;
pub mod error;
pub mod instruction_args;
pub mod laws;
pub mod processor;
pub mod state;
pub mod stores;
