//! Account layouts, encodings, arguments, discriminators and error codes.

use tyche::common::{AssetType, Phase, COMPETITION_SEED, VAULT_SEED};
use tyche::competition::error::TycheCoreError;
use tyche::escrow::args::DepositArgs;
use tyche::escrow::discriminator::{DEPOSIT, ESCROW_VAULT, REFUND, RELEASE};
use tyche::escrow::entrypoint::process_instruction;
use tyche::escrow::error::TycheEscrowError;
use tyche::escrow::instruction_builder::deposit::{build_deposit, derive_vault_pda};
use tyche::escrow::instruction_builder::refund::{build_refund, derive_participant_record_pda};
use tyche::escrow::instruction_builder::release::{build_release, derive_protocol_config_pda};
use tyche::escrow::instructions::TycheEscrowInstruction;
use tyche::program::{check_pda, find_program_address, AccountState, ProgramError};
use tyche::voter_weight::args::create_registrar::CreateRegistrarArgs;
use tyche::voter_weight::args::update_voter_weight_record::UpdateVoterWeightRecordArgs;
use tyche::voter_weight::discriminator::{
    discriminator, CREATE_REGISTRAR, CREATE_VOTER_WEIGHT_RECORD, MAX_VOTER_WEIGHT_RECORD,
    REGISTRAR, UPDATE_MAX_VOTER_WEIGHT_RECORD, UPDATE_VOTER_WEIGHT_RECORD, VOTER_WEIGHT_RECORD,
};
use tyche::voter_weight::error::PluginError;
use tyche::voter_weight::instructions::PluginInstructions;
use tyche::voter_weight::state::max_voter_weight_record::{
    write_max_voter_weight_record, MAX_VOTER_WEIGHT_RECORD_SIZE,
};
use tyche::voter_weight::state::realm::read_realm_authority;
use tyche::voter_weight::state::registrar::{Registrar, REGISTRAR_LEN};
use tyche::voter_weight::state::voter_weight_record::{
    write_voter_weight_record, VoterWeightAction, VoterWeightRecord, VoterWeightRecordData,
    VOTER_WEIGHT_RECORD_MAX_SIZE,
};

const CORE: [u8; 32] = [7u8; 32];

fn addr(b: u8) -> [u8; 32] {
    let mut a = [b; 32];
    a[0] = 0x42;
    a
}

#[test]
fn registrar_size() {
    assert_eq!(Registrar::LEN, 344);
    assert_eq!(REGISTRAR_LEN, 344);
}

#[test]
fn discriminators_are_sha256_prefixes() {
    assert_eq!(discriminator("global:deposit"), DEPOSIT);
    assert_eq!(discriminator("global:release"), RELEASE);
    assert_eq!(discriminator("global:refund"), REFUND);
    assert_eq!(discriminator("account:EscrowVault"), ESCROW_VAULT);
    assert_eq!(discriminator("account:CompetitionState"), tyche::competition::discriminator::COMPETITION_STATE);
    assert_eq!(discriminator("account:ParticipantRecord"), tyche::competition::discriminator::PARTICIPANT_RECORD);
    assert_eq!(discriminator("account:ProtocolConfig"), tyche::competition::discriminator::PROTOCOL_CONFIG);
    assert_eq!(discriminator("global:create_registrar"), CREATE_REGISTRAR);
    assert_eq!(discriminator("global:create_voter_weight_record"), CREATE_VOTER_WEIGHT_RECORD);
    assert_eq!(discriminator("global:update_voter_weight_record"), UPDATE_VOTER_WEIGHT_RECORD);
    assert_eq!(discriminator("global:update_max_voter_weight_record"), UPDATE_MAX_VOTER_WEIGHT_RECORD);
    assert_eq!(discriminator("account:Registrar"), REGISTRAR);
    assert_eq!(discriminator("account:MaxVoterWeightRecord"), MAX_VOTER_WEIGHT_RECORD);
    assert_eq!(discriminator("account:VoterWeightRecord"), VOTER_WEIGHT_RECORD);
    assert_eq!(VOTER_WEIGHT_RECORD, [0x2e, 0xf9, 0x9b, 0x4b, 0x99, 0xf8, 0x74, 0x09]);
}

#[test]
fn program_addresses_are_derived_not_copied() {
    let seeds = vec![COMPETITION_SEED.to_vec(), addr(1).to_vec(), addr(2).to_vec()];
    let (a, bump) = find_program_address(&seeds, &CORE).unwrap();
    assert_ne!(a, CORE);
    assert_ne!(a, addr(1));
    assert_ne!(a, addr(2));
    assert_eq!(find_program_address(&seeds, &CORE), Some((a, bump)));
    let other = find_program_address(&seeds, &[8u8; 32]).unwrap();
    assert_ne!(other.0, a);
    assert_eq!(check_pda(&seeds, &CORE, &a), Ok(bump));
    assert_eq!(check_pda(&seeds, &CORE, &addr(3)), Err(ProgramError::InvalidSeeds));
}

#[test]
fn vault_address_is_the_vault_seed_pda() {
    let (v, b) = derive_vault_pda(&addr(1), &addr(2)).unwrap();
    let expected = find_program_address(
        &vec![VAULT_SEED.to_vec(), addr(1).to_vec(), addr(2).to_vec()],
        &tyche::escrow::discriminator::ID,
    );
    assert_eq!(Some((v, b)), expected);
    assert_ne!(derive_vault_pda(&addr(2), &addr(1)).unwrap().0, v);
}

#[test]
fn build_deposit_layout() {
    let (ix, vault) = build_deposit(&addr(1), &addr(2), &addr(3), 5_000_000).unwrap();
    assert_eq!(vault, derive_vault_pda(&addr(3), &addr(1)).unwrap().0);
    assert_eq!(ix.program_id, tyche::escrow::discriminator::ID);
    assert_eq!(&ix.data[0..8], &DEPOSIT);
    assert_eq!(&ix.data[8..16], &5_000_000u64.to_le_bytes());
    assert_eq!(ix.data.len(), 16);
    let keys: Vec<([u8; 32], bool, bool)> = ix.accounts.iter().map(|m| (m.pubkey, m.is_signer, m.is_writable)).collect();
    assert_eq!(
        keys,
        vec![
            (vault, false, true),
            (addr(1), true, true),
            (addr(2), true, true),
            (addr(3), false, false),
            ([0u8; 32], false, false),
        ]
    );
}

#[test]
fn build_refund_and_release_layouts() {
    let (ix, vault) = build_refund(&addr(1), &addr(3), &CORE).unwrap();
    let (record, _) = derive_participant_record_pda(&addr(3), &addr(1), &CORE).unwrap();
    assert_eq!(ix.data, REFUND.to_vec());
    assert_eq!(ix.accounts.len(), 4);
    assert_eq!(ix.accounts[0].pubkey, vault);
    assert_eq!(ix.accounts[3].pubkey, record);
    assert!(ix.accounts[1].is_signer && ix.accounts[1].is_writable);

    let (ix, vault2) = build_release(&addr(1), &addr(4), &addr(5), &addr(3), &record, &addr(6), &CORE).unwrap();
    let (config, _) = derive_protocol_config_pda(&CORE).unwrap();
    assert_eq!(vault2, vault);
    assert_eq!(ix.data, RELEASE.to_vec());
    assert_eq!(ix.accounts.len(), 8);
    assert_eq!(ix.accounts[3].pubkey, addr(5));
    assert!(ix.accounts[3].is_signer && !ix.accounts[3].is_writable);
    assert_eq!(ix.accounts[6].pubkey, config);
    assert_eq!(ix.accounts[7].pubkey, addr(6));
}

#[test]
fn deposit_args_load() {
    assert_eq!(DepositArgs::load(&7u64.to_le_bytes()), Ok(DepositArgs { amount: 7 }));
    assert_eq!(DepositArgs::load(&[1, 2, 3]), Err(ProgramError::InvalidInstructionData));
    assert_eq!(DepositArgs::load(&[0u8; 9]), Err(ProgramError::InvalidInstructionData));
    assert_eq!(DepositArgs::LEN, 8);
    let ix = TycheEscrowInstruction::Deposit(DepositArgs { amount: 1 });
    assert_ne!(ix, TycheEscrowInstruction::Refund);
}

#[test]
fn create_registrar_args_load() {
    let mut b = Vec::new();
    b.extend_from_slice(&addr(1));
    b.extend_from_slice(&addr(2));
    b.extend_from_slice(&addr(3));
    let a = CreateRegistrarArgs::load(&b).unwrap();
    assert_eq!(a.governance_program_id, addr(1));
    assert_eq!(a.competition, addr(2));
    assert_eq!(a.tyche_escrow_program, addr(3));
    assert_eq!(CreateRegistrarArgs::load(&b[..95]), Err(ProgramError::InvalidInstructionData));
}

#[test]
fn update_voter_weight_record_args_load() {
    assert_eq!(UpdateVoterWeightRecordArgs::load(&[]).unwrap().action, VoterWeightAction::CastVote);
    assert_eq!(UpdateVoterWeightRecordArgs::load(&[1]).unwrap().action, VoterWeightAction::CommentProposal);
    assert_eq!(UpdateVoterWeightRecordArgs::load(&[2]).unwrap().action, VoterWeightAction::CreateGovernance);
    assert_eq!(UpdateVoterWeightRecordArgs::load(&[3, 9]).unwrap().action, VoterWeightAction::CreateProposal);
    assert_eq!(UpdateVoterWeightRecordArgs::load(&[4]).unwrap().action, VoterWeightAction::SignOffProposal);
    assert!(UpdateVoterWeightRecordArgs::load(&[5]).is_err());
    assert_eq!(VoterWeightAction::SignOffProposal.as_u8(), 4);
}

#[test]
fn voter_weight_record_encoding() {
    let mut data = vec![0xFFu8; 170];
    write_voter_weight_record(
        &mut data,
        &VOTER_WEIGHT_RECORD,
        &addr(1),
        &addr(2),
        &addr(3),
        1_234_567,
        Some(99),
        Some(VoterWeightAction::CastVote),
        Some(addr(4)),
    );
    assert_eq!(&data[0..8], &VOTER_WEIGHT_RECORD);
    assert_eq!(&data[8..40], &addr(1));
    assert_eq!(&data[40..72], &addr(2));
    assert_eq!(&data[72..104], &addr(3));
    assert_eq!(&data[104..112], &1_234_567u64.to_le_bytes());
    assert_eq!(data[112], 1);
    assert_eq!(&data[113..121], &99u64.to_le_bytes());
    assert_eq!(&data[121..123], &[1, 0]);
    assert_eq!(data[123], 1);
    assert_eq!(&data[124..156], &addr(4));
    assert_eq!(&data[156..164], &[0u8; 8]);
    assert_eq!(&data[164..], &[0xFFu8; 6], "bytes past the record are untouched");
    assert_eq!(VOTER_WEIGHT_RECORD_MAX_SIZE, 164);

    let mut short = vec![0xFFu8; 164];
    write_voter_weight_record(&mut short, &VOTER_WEIGHT_RECORD, &addr(1), &addr(2), &addr(3), 0, None, None, None);
    assert_eq!(&short[104..112], &[0u8; 8]);
    assert_eq!(&short[112..115], &[0, 0, 0]);
    assert_eq!(&short[115..123], &[0u8; 8]);
    assert_eq!(&short[123..], &[0xFFu8; 41]);
}

#[test]
fn voter_weight_record_write_to() {
    let rec = VoterWeightRecord {
        inner: VoterWeightRecordData {
            account_discriminator: VOTER_WEIGHT_RECORD,
            realm: addr(1),
            governing_token_mint: addr(2),
            governing_token_owner: addr(3),
            voter_weight: 5,
            voter_weight_expiry: Some(6),
            weight_action: Some(VoterWeightAction::CreateProposal),
            weight_action_target: None,
            reserved: [0u8; 8],
        },
    };
    let mut data = vec![0u8; 164];
    rec.write_to(&mut data);
    assert_eq!(&data[0..8], &VOTER_WEIGHT_RECORD);
    assert_eq!(u64::from_le_bytes(data[104..112].try_into().unwrap()), 5);
    assert_eq!(&data[112..121], &[1, 6, 0, 0, 0, 0, 0, 0, 0]);
    assert_eq!(&data[121..124], &[1, 3, 0]);
}

#[test]
fn max_voter_weight_record_encoding() {
    let mut data = vec![0xFFu8; 97];
    write_max_voter_weight_record(&mut data, &MAX_VOTER_WEIGHT_RECORD, &addr(1), &addr(2), u64::MAX, Some(12));
    assert_eq!(&data[0..8], &MAX_VOTER_WEIGHT_RECORD);
    assert_eq!(&data[8..40], &addr(1));
    assert_eq!(&data[40..72], &addr(2));
    assert_eq!(&data[72..80], &[0xFFu8; 8]);
    assert_eq!(data[80], 1);
    assert_eq!(&data[81..89], &12u64.to_le_bytes());
    assert_eq!(&data[89..97], &[0u8; 8]);
    assert_eq!(MAX_VOTER_WEIGHT_RECORD_SIZE, 97);

    let mut data = vec![0xAAu8; 97];
    write_max_voter_weight_record(&mut data, &MAX_VOTER_WEIGHT_RECORD, &addr(1), &addr(2), 3, None);
    assert_eq!(&data[72..80], &3u64.to_le_bytes());
    assert_eq!(data[80], 0);
    assert_eq!(&data[81..89], &[0u8; 8]);
    assert_eq!(&data[89..97], &[0xAAu8; 8]);
}

#[test]
fn escrow_rejects_short_or_unknown_instruction_data() {
    let accounts: Vec<AccountState> = Vec::new();
    assert!(matches!(process_instruction(&accounts, &[1, 2, 3]), Err(ProgramError::InvalidInstructionData)));
    assert!(matches!(process_instruction(&accounts, &[9u8; 8]), Err(ProgramError::InvalidInstructionData)));
    assert!(matches!(process_instruction(&accounts, &DEPOSIT), Err(ProgramError::NotEnoughAccountKeys)));
}

#[test]
fn error_codes() {
    assert_eq!(ProgramError::from(TycheEscrowError::InvalidPhase), ProgramError::Custom(TycheEscrowError::InvalidPhase.code()));
    assert_ne!(TycheEscrowError::InvalidPhase.code(), TycheEscrowError::NotWinner.code());
    assert_eq!(ProgramError::from(PluginError::WrongCompetition), ProgramError::Custom(0x3100));
    assert_eq!(ProgramError::from(PluginError::InvalidDiscriminator), ProgramError::Custom(0x3104));
    assert_eq!(ProgramError::from(TycheCoreError::NotAuthority), ProgramError::Custom(TycheCoreError::NotAuthority.code()));
}

#[test]
fn phases_and_asset_types() {
    for p in [Phase::Scheduled, Phase::Active, Phase::Settling, Phase::Settled, Phase::Cancelled] {
        assert_eq!(Phase::from_u8(p.as_u8()), Some(p));
    }
    assert_eq!(Phase::from_u8(5), None);
    assert_eq!(Phase::Cancelled.as_u8(), 4);
    assert_eq!(AssetType::try_from_primitive(0), Some(AssetType::Nft));
    assert_eq!(AssetType::try_from_primitive(3), None);
    let _ = PluginInstructions;
}

#[test]
fn realm_authority_is_read_past_the_optional_council_mint() {
    let mut d = vec![0u8; 58];
    d.push(0);
    d.extend_from_slice(&[0u8; 8]);
    d.push(1);
    d.extend_from_slice(&addr(9));
    d.extend_from_slice(&[0u8; 10]);
    assert_eq!(read_realm_authority(&d), Some(Some(addr(9))));

    let mut c = vec![0u8; 58];
    c.push(1);
    c.extend_from_slice(&addr(8));
    c.extend_from_slice(&[0u8; 8]);
    c.push(0);
    assert_eq!(read_realm_authority(&c), Some(None));

    assert_eq!(read_realm_authority(&[0u8; 58]), None);
    let mut bad = vec![0u8; 58];
    bad.push(2);
    bad.extend_from_slice(&[0u8; 60]);
    assert_eq!(read_realm_authority(&bad), None);
    let mut short = vec![0u8; 58];
    short.push(0);
    short.extend_from_slice(&[0u8; 8]);
    short.push(1);
    short.extend_from_slice(&[7u8; 10]);
    assert_eq!(read_realm_authority(&short), None);
}
