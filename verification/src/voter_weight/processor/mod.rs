//! Instruction handlers of the voter-weight plugin.

pub mod create_registrar;
pub mod create_voter_weight_record;
pub mod update_voter_weight_record;
pub mod update_max_voter_weight_record;
