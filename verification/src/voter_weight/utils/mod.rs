//! Helpers of the voter-weight plugin.

pub mod pda;
