//! Instruction arguments of the voter-weight plugin.

pub mod create_registrar;
pub mod update_voter_weight_record;
