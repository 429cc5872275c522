//! Verified account layouts, instruction logic and state transitions of the
//! Tyche competition, escrow and voter-weight programs.

pub mod common;
pub mod competition;
pub mod escrow;
pub mod layout;
pub mod program;
pub mod voter_weight;
