//! Account layouts of the voter-weight plugin.

pub mod max_voter_weight_record;
pub mod realm;
pub mod registrar;
pub mod voter_weight_record;
