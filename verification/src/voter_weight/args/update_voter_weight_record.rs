//! Arguments of `UpdateVoterWeightRecord`.

use vstd::prelude::*;
use crate::program::ProgramError;
use crate::voter_weight::state::voter_weight_record::{VoterWeightAction, action_byte};

verus! {

/// The action that `b` encodes, if any.
pub open spec fn action_of_byte(b: u8) -> Option<VoterWeightAction> {
    if b == 0 {
        Some(VoterWeightAction::CastVote)
    } else if b == 1 {
        Some(VoterWeightAction::CommentProposal)
    } else if b == 2 {
        Some(VoterWeightAction::CreateGovernance)
    } else if b == 3 {
        Some(VoterWeightAction::CreateProposal)
    } else if b == 4 {
        Some(VoterWeightAction::SignOffProposal)
    } else {
        None
    }
}

/// Arguments of `UpdateVoterWeightRecord`.
#[derive(Clone, Copy, Debug, PartialEq, Eq)]
pub struct UpdateVoterWeightRecordArgs {
    /// The action the record is prepared for.
    pub action: VoterWeightAction,
}

impl UpdateVoterWeightRecordArgs {
    /// Reads the arguments: no bytes means `CastVote`; otherwise the first
    /// byte is the action's ordinal.
    pub fn load(data: &[u8]) -> (r: Result<UpdateVoterWeightRecordArgs, ProgramError>)
        ensures
            data@.len() == 0 ==> r == Ok::<UpdateVoterWeightRecordArgs, ProgramError>(
                UpdateVoterWeightRecordArgs { action: VoterWeightAction::CastVote },
            ),
            data@.len() > 0 ==> match action_of_byte(data@[0]) {
                Some(a) => r == Ok::<UpdateVoterWeightRecordArgs, ProgramError>(UpdateVoterWeightRecordArgs { action: a }),
                None => r == Err::<UpdateVoterWeightRecordArgs, ProgramError>(ProgramError::InvalidInstructionData),
            },
    {
        if data.len() == 0 {
            return Ok(UpdateVoterWeightRecordArgs { action: VoterWeightAction::CastVote });
        }
        let action = match data[0] {
            0 => VoterWeightAction::CastVote,
            1 => VoterWeightAction::CommentProposal,
            2 => VoterWeightAction::CreateGovernance,
            3 => VoterWeightAction::CreateProposal,
            4 => VoterWeightAction::SignOffProposal,
            _ => return Err(ProgramError::InvalidInstructionData),
        };
        Ok(UpdateVoterWeightRecordArgs { action })
    }
}

/// Every action survives encoding and loading: its byte loads back as it.
pub proof fn law_action_byte_roundtrip(a: VoterWeightAction)
    ensures
        action_of_byte(action_byte(a)) == Some(a),
{
}

} // verus!
