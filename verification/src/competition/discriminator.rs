//! Account discriminators of the competition program:
//! `sha256("account:<AccountName>")[0..8]`.

use vstd::prelude::*;

verus! {

/// Discriminator of `CompetitionState` accounts.
pub const COMPETITION_STATE: [u8; 8] = [92, 143, 28, 37, 251, 106, 9, 146];

/// Discriminator of `ParticipantRecord` accounts.
pub const PARTICIPANT_RECORD: [u8; 8] = [106, 52, 124, 24, 80, 173, 194, 4];

/// Discriminator of the `ProtocolConfig` account.
pub const PROTOCOL_CONFIG: [u8; 8] = [207, 91, 250, 28, 152, 179, 215, 209];

} // verus!
