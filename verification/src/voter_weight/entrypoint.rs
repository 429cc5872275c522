//! Instruction dispatch of the voter-weight plugin.
//!
//! Instruction data is an 8-byte discriminator,
//! `sha256("global:<instruction_name>")[0..8]`, followed by the arguments of
//! the instruction: 96 bytes for `CreateRegistrar`, an optional action byte
//! for `UpdateVoterWeightRecord`, nothing for the others.

use vstd::prelude::*;
use crate::layout::{addr_at, bytes_at, bytes_equal_at};
use crate::program::{AccountState, Clock, ProgramError};
use crate::voter_weight::discriminator::{
    CREATE_REGISTRAR, CREATE_VOTER_WEIGHT_RECORD, UPDATE_MAX_VOTER_WEIGHT_RECORD,
    UPDATE_VOTER_WEIGHT_RECORD,
};
use crate::voter_weight::processor::create_registrar::{
    CreateRegistrarInstruction, CreateRegistrarOutcome, CreateRegistrarView,
    create_registrar_accounts_error, create_registrar_effects, create_registrar_error,
    create_registrar_view,
};
use crate::voter_weight::processor::create_voter_weight_record::{
    CreateVoterWeightRecordInstruction, CreateVoterWeightRecordOutcome,
    CreateVoterWeightRecordView, create_voter_weight_record_accounts_error,
    create_voter_weight_record_effects, create_voter_weight_record_error,
    create_voter_weight_record_view,
};
use crate::voter_weight::processor::update_max_voter_weight_record::{
    UpdateMaxVoterWeightRecordInstruction, update_max_voter_weight_record_accounts_error,
    update_max_voter_weight_record_error, updated_max_voter_weight_record,
};
use crate::voter_weight::processor::update_voter_weight_record::{
    UpdateVoterWeightRecordInstruction, UpdateVoterWeightRecordView, update_action,
    update_voter_weight_record_accounts_error, update_voter_weight_record_error,
    update_voter_weight_record_view, updated_voter_weight_record,
};

verus! {

/// The effect of a plugin instruction that passed its checks. The two
/// updates give the record's new data.
pub enum PluginOutcome {
    CreateRegistrar(CreateRegistrarOutcome),
    CreateVoterWeightRecord(CreateVoterWeightRecordOutcome),
    UpdateVoterWeightRecord(Vec<u8>),
    UpdateMaxVoterWeightRecord(Vec<u8>),
}

/// The `CreateRegistrar` view of an instruction's account list and data.
pub open spec fn create_registrar_view_of(a: Seq<AccountState>, data: Seq<u8>) -> CreateRegistrarView {
    CreateRegistrarView {
        registrar: a[0].address@,
        registrar_data: a[0].data@,
        realm: a[1].address@,
        realm_owner: a[1].owner@,
        realm_data: a[1].data@,
        mint: a[2].address@,
        realm_authority: a[3].address@,
        max_record: if a.len() > 6 {
            Some(a[6].address@)
        } else {
            None
        },
        governance_program_id: addr_at(data, 8),
    }
}

/// The `CreateVoterWeightRecord` view of an instruction's account list.
pub open spec fn create_voter_weight_record_view_of(a: Seq<AccountState>) -> CreateVoterWeightRecordView {
    CreateVoterWeightRecordView {
        record: a[0].address@,
        record_data: a[0].data@,
        registrar: a[1].address@,
        registrar_owner: a[1].owner@,
        registrar_data: a[1].data@,
        realm: a[2].address@,
        mint: a[3].address@,
        voter: a[4].address@,
    }
}

/// The `UpdateVoterWeightRecord` view of an instruction's account list.
pub open spec fn update_voter_weight_record_view_of(a: Seq<AccountState>) -> UpdateVoterWeightRecordView {
    UpdateVoterWeightRecordView {
        record: a[0].address@,
        record_owner: a[0].owner@,
        record_data: a[0].data@,
        registrar_owner: a[1].owner@,
        registrar_data: a[1].data@,
        vault_owner: a[2].owner@,
        vault_data: a[2].data@,
        voter: a[3].address@,
        proposal: a[4].address@,
    }
}

/// The arguments that follow the discriminator.
pub open spec fn plugin_args(data: Seq<u8>) -> Seq<u8> {
    data.subrange(8, data.len() as int)
}

/// The error that the plugin reports for `accounts` and `data`, if any.
pub open spec fn plugin_error_of(a: Seq<AccountState>, data: Seq<u8>) -> Option<ProgramError> {
    if data.len() < 8 {
        Some(ProgramError::InvalidInstructionData)
    } else if bytes_at(data, 0, 8) == CREATE_REGISTRAR@ {
        if create_registrar_accounts_error(a) is Some {
            create_registrar_accounts_error(a)
        } else if data.len() != 8 + 96 {
            Some(ProgramError::InvalidInstructionData)
        } else {
            create_registrar_error(create_registrar_view_of(a, data))
        }
    } else if bytes_at(data, 0, 8) == CREATE_VOTER_WEIGHT_RECORD@ {
        if create_voter_weight_record_accounts_error(a) is Some {
            create_voter_weight_record_accounts_error(a)
        } else {
            create_voter_weight_record_error(create_voter_weight_record_view_of(a))
        }
    } else if bytes_at(data, 0, 8) == UPDATE_VOTER_WEIGHT_RECORD@ {
        if update_voter_weight_record_accounts_error(a) is Some {
            update_voter_weight_record_accounts_error(a)
        } else if update_action(plugin_args(data)) is None {
            Some(ProgramError::InvalidInstructionData)
        } else {
            update_voter_weight_record_error(update_voter_weight_record_view_of(a))
        }
    } else if bytes_at(data, 0, 8) == UPDATE_MAX_VOTER_WEIGHT_RECORD@ {
        if update_max_voter_weight_record_accounts_error(a) is Some {
            update_max_voter_weight_record_accounts_error(a)
        } else {
            update_max_voter_weight_record_error(a[0].address@, a[0].data@, a[1].owner@, a[1].data@)
        }
    } else {
        Some(ProgramError::InvalidInstructionData)
    }
}

/// Whether `o` is the effect of the plugin instruction in `data` on
/// `accounts` at the slot of `clock`.
pub open spec fn plugin_effects_of(a: Seq<AccountState>, data: Seq<u8>, clock: Clock, o: PluginOutcome) -> bool {
    if bytes_at(data, 0, 8) == CREATE_REGISTRAR@ {
        o matches PluginOutcome::CreateRegistrar(c) && create_registrar_effects(
            addr_at(data, 8),
            addr_at(data, 40),
            addr_at(data, 72),
            a[1].address@,
            a[2].address@,
            a.len() > 6,
            c,
        )
    } else if bytes_at(data, 0, 8) == CREATE_VOTER_WEIGHT_RECORD@ {
        o matches PluginOutcome::CreateVoterWeightRecord(c) && create_voter_weight_record_effects(
            create_voter_weight_record_view_of(a),
            c,
        )
    } else if bytes_at(data, 0, 8) == UPDATE_VOTER_WEIGHT_RECORD@ {
        o matches PluginOutcome::UpdateVoterWeightRecord(d) && d@ == updated_voter_weight_record(
            update_voter_weight_record_view_of(a),
            update_action(plugin_args(data)).unwrap(),
            clock.slot,
        )
    } else {
        o matches PluginOutcome::UpdateMaxVoterWeightRecord(d) && d@ == updated_max_voter_weight_record(
            a[0].data@,
            a[1].data@,
            clock.slot,
        )
    }
}

/// Decodes the instruction, validates its accounts and runs its checks;
/// `clock` is the clock sysvar of the slot the instruction runs in.
pub fn process_instruction(accounts: &[AccountState], data: &[u8], clock: &Clock) -> (r: Result<PluginOutcome, ProgramError>)
    ensures
        match plugin_error_of(accounts@, data@) {
            Some(e) => r matches Err(x) && x == e,
            None => r matches Ok(o) && plugin_effects_of(accounts@, data@, *clock, o),
        },
{
    if data.len() < 8 {
        return Err(ProgramError::InvalidInstructionData);
    }
    let args = vstd::slice::slice_subrange(data, 8, data.len());
    assert(args@ == plugin_args(data@));
    assert(args@.len() == 96 ==> {
        &&& addr_at(args@, 0) == addr_at(data@, 8)
        &&& addr_at(args@, 32) == addr_at(data@, 40)
        &&& addr_at(args@, 64) == addr_at(data@, 72)
    }) by {
        if args@.len() == 96 {
            assert(addr_at(args@, 0) =~= addr_at(data@, 8));
            assert(addr_at(args@, 32) =~= addr_at(data@, 40));
            assert(addr_at(args@, 64) =~= addr_at(data@, 72));
        }
    }
    if bytes_equal_at(data, 0, &CREATE_REGISTRAR) {
        let ix = CreateRegistrarInstruction::try_from(accounts, args)?;
        assert(create_registrar_view(ix) == create_registrar_view_of(accounts@, data@));
        let o = ix.handler()?;
        Ok(PluginOutcome::CreateRegistrar(o))
    } else if bytes_equal_at(data, 0, &CREATE_VOTER_WEIGHT_RECORD) {
        let ix = CreateVoterWeightRecordInstruction::try_from(accounts, args)?;
        assert(create_voter_weight_record_view(ix) == create_voter_weight_record_view_of(accounts@));
        let o = ix.handler()?;
        Ok(PluginOutcome::CreateVoterWeightRecord(o))
    } else if bytes_equal_at(data, 0, &UPDATE_VOTER_WEIGHT_RECORD) {
        let ix = UpdateVoterWeightRecordInstruction::try_from(accounts, args)?;
        assert(update_voter_weight_record_view(ix) == update_voter_weight_record_view_of(accounts@));
        let d = ix.handler(clock)?;
        Ok(PluginOutcome::UpdateVoterWeightRecord(d))
    } else if bytes_equal_at(data, 0, &UPDATE_MAX_VOTER_WEIGHT_RECORD) {
        let ix = UpdateMaxVoterWeightRecordInstruction::try_from(accounts, args)?;
        let d = ix.handler(clock)?;
        Ok(PluginOutcome::UpdateMaxVoterWeightRecord(d))
    } else {
        Err(ProgramError::InvalidInstructionData)
    }
}

} // verus!
