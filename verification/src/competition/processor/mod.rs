//! Instruction processors of the competition program.

pub mod create;
pub mod activate;
pub mod cancel;
pub mod close;
pub mod extend;
pub mod settle;
pub mod register_bid;
pub mod initialize_protocol_config;
pub mod update_crank_authority;
pub mod update_protocol_config;
