//! `CreateRegistrar`: one-time setup of the plugin for a realm and mint.
//!
//! Only the realm's authority may create the registrar. Passed a seventh
//! account, the max-voter-weight record, it creates that record alongside,
//! so that `UpdateMaxVoterWeightRecord` finds a live account.

use vstd::prelude::*;
use crate::layout::{address_eq, put_bytes, put_u8, write_bytes, write_u8, zero_bytes, zeros};
use crate::program::{
    AccountState, CreateAccountCpi, ProgramError, check_pda, is_pda, pda_bump, seeds3, seeds_view,
    with_bump,
};
use crate::voter_weight::args::create_registrar::CreateRegistrarArgs;
use crate::voter_weight::discriminator::{ID, MAX_VOTER_WEIGHT_RECORD, REGISTRAR};
use crate::voter_weight::error::{PluginError, plugin_err, plugin_error};
use crate::voter_weight::state::max_voter_weight_record::{
    MAX_VOTER_WEIGHT_RECORD_SIZE, max_voter_weight_record_bytes, write_max_voter_weight_record,
};
use crate::voter_weight::state::realm::{read_realm_authority, realm_authority};
use crate::voter_weight::state::registrar::{
    REGISTRAR_LEN, REG_BUMP, REG_COMPETITION, REG_GOVERNANCE_PROGRAM_ID, REG_GOVERNING_TOKEN_MINT,
    REG_REALM, REG_TYCHE_ESCROW_PROGRAM_ID,
};
use crate::voter_weight::utils::pda::{
    MAX_VOTER_WEIGHT_RECORD_SEED, REGISTRAR_SEED, max_voter_weight_record_seeds, registrar_seeds,
};

verus! {

/// Validated accounts of `CreateRegistrar`.
pub struct CreateRegistrarAccounts<'a> {
    /// The registrar PDA to create.
    pub registrar: &'a AccountState,
    /// The SPL Governance realm: owned by the governance program, it names
    /// the realm authority.
    pub realm: &'a AccountState,
    pub governing_token_mint: &'a AccountState,
    /// Must sign and be the realm's authority.
    pub realm_authority: &'a AccountState,
    /// Must sign; funds the rent.
    pub payer: &'a AccountState,
    pub system_program: &'a AccountState,
    /// The max-voter-weight record PDA, created alongside the registrar when
    /// it is passed as a seventh account.
    pub max_voter_weight_record: Option<&'a AccountState>,
}

/// The error that the account checks of `CreateRegistrar` report, if any.
pub open spec fn create_registrar_accounts_error(a: Seq<AccountState>) -> Option<ProgramError> {
    if a.len() < 6 {
        Some(ProgramError::NotEnoughAccountKeys)
    } else if !a[0].is_writable {
        Some(ProgramError::InvalidAccountData)
    } else if a.len() > 6 && !a[6].is_writable {
        Some(ProgramError::InvalidAccountData)
    } else if !a[3].is_signer {
        Some(ProgramError::MissingRequiredSignature)
    } else if !a[4].is_signer {
        Some(ProgramError::MissingRequiredSignature)
    } else {
        None
    }
}

/// The optional seventh account of `CreateRegistrar`.
pub open spec fn optional_max_record(a: Seq<AccountState>) -> Option<AccountState> {
    if a.len() > 6 {
        Some(a[6])
    } else {
        None
    }
}

impl<'a> CreateRegistrarAccounts<'a> {
    /// Takes the six accounts (and the optional seventh) and checks
    /// writability and signatures.
    pub fn try_from(accounts: &'a [AccountState]) -> (r: Result<CreateRegistrarAccounts<'a>, ProgramError>)
        ensures
            match create_registrar_accounts_error(accounts@) {
                Some(e) => r matches Err(x) && x == e,
                None => r matches Ok(x) && {
                    &&& *x.registrar == accounts@[0]
                    &&& *x.realm == accounts@[1]
                    &&& *x.governing_token_mint == accounts@[2]
                    &&& *x.realm_authority == accounts@[3]
                    &&& *x.payer == accounts@[4]
                    &&& *x.system_program == accounts@[5]
                    &&& match optional_max_record(accounts@) {
                        Some(m) => x.max_voter_weight_record matches Some(y) && *y == m,
                        None => x.max_voter_weight_record is None,
                    }
                },
            },
    {
        if accounts.len() < 6 {
            return Err(ProgramError::NotEnoughAccountKeys);
        }
        let registrar = &accounts[0];
        let realm = &accounts[1];
        let governing_token_mint = &accounts[2];
        let realm_authority = &accounts[3];
        let payer = &accounts[4];
        let system_program = &accounts[5];
        if !registrar.is_writable {
            return Err(ProgramError::InvalidAccountData);
        }
        let max_voter_weight_record = if accounts.len() > 6 {
            let m = &accounts[6];
            if !m.is_writable {
                return Err(ProgramError::InvalidAccountData);
            }
            Some(m)
        } else {
            None
        };
        if !realm_authority.is_signer {
            return Err(ProgramError::MissingRequiredSignature);
        }
        if !payer.is_signer {
            return Err(ProgramError::MissingRequiredSignature);
        }
        Ok(CreateRegistrarAccounts {
            registrar,
            realm,
            governing_token_mint,
            realm_authority,
            payer,
            system_program,
            max_voter_weight_record,
        })
    }
}

/// Instruction context of `CreateRegistrar`.
pub struct CreateRegistrarInstruction<'a> {
    pub accounts: CreateRegistrarAccounts<'a>,
    pub args: CreateRegistrarArgs,
}

impl<'a> CreateRegistrarInstruction<'a> {
    /// Validates the accounts, then reads the 96 bytes of arguments.
    pub fn try_from(accounts: &'a [AccountState], data: &[u8]) -> (r: Result<CreateRegistrarInstruction<'a>, ProgramError>)
        ensures
            match create_registrar_accounts_error(accounts@) {
                Some(e) => r matches Err(x) && x == e,
                None => if data@.len() != CreateRegistrarArgs::LEN {
                    r matches Err(x) && x == ProgramError::InvalidInstructionData
                } else {
                    r matches Ok(ix) && {
                        &&& *ix.accounts.registrar == accounts@[0]
                        &&& *ix.accounts.realm == accounts@[1]
                        &&& *ix.accounts.governing_token_mint == accounts@[2]
                        &&& *ix.accounts.realm_authority == accounts@[3]
                        &&& *ix.accounts.payer == accounts@[4]
                        &&& *ix.accounts.system_program == accounts@[5]
                        &&& match optional_max_record(accounts@) {
                            Some(m) => ix.accounts.max_voter_weight_record matches Some(y) && *y == m,
                            None => ix.accounts.max_voter_weight_record is None,
                        }
                        &&& ix.args.governance_program_id@ == crate::layout::addr_at(data@, 0)
                        &&& ix.args.competition@ == crate::layout::addr_at(data@, 32)
                        &&& ix.args.tyche_escrow_program@ == crate::layout::addr_at(data@, 64)
                    }
                },
            },
    {
        let accounts = CreateRegistrarAccounts::try_from(accounts)?;
        let args = CreateRegistrarArgs::load(data)?;
        Ok(CreateRegistrarInstruction { accounts, args })
    }
}

/// The data of a new registrar: every field not named here is zero (no
/// previous plugin, padding and reserved bytes).
pub open spec fn new_registrar_bytes(
    governance_program_id: Seq<u8>,
    realm: Seq<u8>,
    mint: Seq<u8>,
    escrow_program_id: Seq<u8>,
    competition: Seq<u8>,
    bump: u8,
) -> Seq<u8> {
    put_u8(
        put_bytes(
            put_bytes(
                put_bytes(
                    put_bytes(
                        put_bytes(put_bytes(zeros(REGISTRAR_LEN as nat), 0, REGISTRAR@), REG_GOVERNANCE_PROGRAM_ID as int, governance_program_id),
                        REG_REALM as int,
                        realm,
                    ),
                    REG_GOVERNING_TOKEN_MINT as int,
                    mint,
                ),
                REG_TYCHE_ESCROW_PROGRAM_ID as int,
                escrow_program_id,
            ),
            REG_COMPETITION as int,
            competition,
        ),
        REG_BUMP as int,
        bump,
    )
}

/// The contents of the accounts of a `CreateRegistrar` as plain values.
pub struct CreateRegistrarView {
    pub registrar: Seq<u8>,
    pub registrar_data: Seq<u8>,
    pub realm: Seq<u8>,
    pub realm_owner: Seq<u8>,
    pub realm_data: Seq<u8>,
    pub mint: Seq<u8>,
    pub realm_authority: Seq<u8>,
    /// The address of the max-voter-weight record, when one is passed.
    pub max_record: Option<Seq<u8>>,
    pub governance_program_id: Seq<u8>,
}

/// The plain contents of the accounts and arguments of `ix`.
pub open spec fn create_registrar_view(ix: CreateRegistrarInstruction) -> CreateRegistrarView {
    let a = ix.accounts;
    CreateRegistrarView {
        registrar: a.registrar.address@,
        registrar_data: a.registrar.data@,
        realm: a.realm.address@,
        realm_owner: a.realm.owner@,
        realm_data: a.realm.data@,
        mint: a.governing_token_mint.address@,
        realm_authority: a.realm_authority.address@,
        max_record: match a.max_voter_weight_record {
            Some(m) => Some(m.address@),
            None => None,
        },
        governance_program_id: ix.args.governance_program_id@,
    }
}

/// The error that `CreateRegistrar` reports for these accounts, if any: the
/// realm must belong to the governance program and name the signer as its
/// authority; the registrar (and the max-voter-weight record, when passed)
/// must be this realm and mint's PDAs, and the registrar must be new.
pub open spec fn create_registrar_error(v: CreateRegistrarView) -> Option<ProgramError> {
    if v.realm_owner != v.governance_program_id {
        Some(ProgramError::InvalidAccountOwner)
    } else if realm_authority(v.realm_data) is None {
        Some(ProgramError::InvalidAccountData)
    } else if realm_authority(v.realm_data) != Some(Some(v.realm_authority)) {
        Some(ProgramError::IncorrectAuthority)
    } else if !is_pda(registrar_seeds(v.realm, v.mint), ID@, v.registrar) {
        Some(ProgramError::InvalidSeeds)
    } else if v.registrar_data.len() != 0 {
        Some(plugin_err(PluginError::InvalidRegistrar))
    } else if v.max_record matches Some(m) && !is_pda(max_voter_weight_record_seeds(v.realm, v.mint), ID@, m) {
        Some(ProgramError::InvalidSeeds)
    } else {
        None
    }
}

/// The creation of the max-voter-weight record: create the account, then
/// store `data` in it.
pub struct NewMaxVoterWeightRecord {
    pub create: CreateAccountCpi,
    pub data: Vec<u8>,
}

/// What a `CreateRegistrar` that passed its checks does, in order: create the
/// registrar, store `registrar_data` in it, then create and fill the
/// max-voter-weight record when one was passed.
pub struct CreateRegistrarOutcome {
    pub create_registrar: CreateAccountCpi,
    pub registrar_data: Vec<u8>,
    pub max_voter_weight_record: Option<NewMaxVoterWeightRecord>,
}

/// Whether `o` is the effect of a `CreateRegistrar` for `realm` and `mint`,
/// with the arguments `governance_program_id`, `competition` and
/// `escrow_program_id`, that passed its checks. The max-voter-weight record
/// starts at `u64::MAX` with no expiry.
pub open spec fn create_registrar_effects(
    governance_program_id: Seq<u8>,
    competition: Seq<u8>,
    escrow_program_id: Seq<u8>,
    realm: Seq<u8>,
    mint: Seq<u8>,
    with_max_record: bool,
    o: CreateRegistrarOutcome,
) -> bool {
    let rs = registrar_seeds(realm, mint);
    let ms = max_voter_weight_record_seeds(realm, mint);
    &&& o.create_registrar.space == REGISTRAR_LEN
    &&& o.create_registrar.owner@ == ID@
    &&& seeds_view(o.create_registrar.signer_seeds@) == rs.push(seq![pda_bump(rs, ID@)])
    &&& o.registrar_data@ == new_registrar_bytes(
        governance_program_id,
        realm,
        mint,
        escrow_program_id,
        competition,
        pda_bump(rs, ID@),
    )
    &&& if with_max_record {
        o.max_voter_weight_record matches Some(n) && {
            &&& n.create.space == MAX_VOTER_WEIGHT_RECORD_SIZE
            &&& n.create.owner@ == ID@
            &&& seeds_view(n.create.signer_seeds@) == ms.push(seq![pda_bump(ms, ID@)])
            &&& n.data@ == put_bytes(
                zeros(MAX_VOTER_WEIGHT_RECORD_SIZE as nat),
                0,
                max_voter_weight_record_bytes(MAX_VOTER_WEIGHT_RECORD@, realm, mint, u64::MAX, None),
            )
        }
    } else {
        o.max_voter_weight_record is None
    }
}

/// The data of a new registrar.
fn new_registrar_data(args: &CreateRegistrarArgs, realm: &[u8; 32], mint: &[u8; 32], bump: u8) -> (v: Vec<u8>)
    ensures
        v@ == new_registrar_bytes(
            args.governance_program_id@,
            realm@,
            mint@,
            args.tyche_escrow_program@,
            args.competition@,
            bump,
        ),
{
    let mut v = zero_bytes(REGISTRAR_LEN);
    write_bytes(v.as_mut_slice(), 0, &REGISTRAR);
    write_bytes(v.as_mut_slice(), REG_GOVERNANCE_PROGRAM_ID, &args.governance_program_id);
    write_bytes(v.as_mut_slice(), REG_REALM, realm);
    write_bytes(v.as_mut_slice(), REG_GOVERNING_TOKEN_MINT, mint);
    write_bytes(v.as_mut_slice(), REG_TYCHE_ESCROW_PROGRAM_ID, &args.tyche_escrow_program);
    write_bytes(v.as_mut_slice(), REG_COMPETITION, &args.competition);
    write_u8(v.as_mut_slice(), REG_BUMP, bump);
    v
}

impl<'a> CreateRegistrarInstruction<'a> {
    /// Checks both PDAs and that the registrar is new, and describes the two
    /// account creations and their initial data.
    pub fn handler(&self) -> (r: Result<CreateRegistrarOutcome, ProgramError>)
        ensures
            match create_registrar_error(create_registrar_view(*self)) {
                Some(e) => r matches Err(x) && x == e,
                None => r matches Ok(o) && create_registrar_effects(
                    self.args.governance_program_id@,
                    self.args.competition@,
                    self.args.tyche_escrow_program@,
                    self.accounts.realm.address@,
                    self.accounts.governing_token_mint.address@,
                    self.accounts.max_voter_weight_record is Some,
                    o,
                ),
            },
    {
        let accounts = &self.accounts;
        let realm = accounts.realm.address;
        let mint = accounts.governing_token_mint.address;

        // 1: The realm belongs to the governance program and the signer is
        //    its authority.
        if !address_eq(&accounts.realm.owner, &self.args.governance_program_id) {
            return Err(ProgramError::InvalidAccountOwner);
        }
        match read_realm_authority(accounts.realm.data.as_slice()) {
            None => return Err(ProgramError::InvalidAccountData),
            Some(None) => return Err(ProgramError::IncorrectAuthority),
            Some(Some(authority)) => {
                if !address_eq(&authority, &accounts.realm_authority.address) {
                    return Err(ProgramError::IncorrectAuthority);
                }
            },
        }

        // 2: The registrar PDA, still empty.
        let reg_seeds = seeds3(&realm, &REGISTRAR_SEED, &mint);
        let reg_bump = check_pda(&reg_seeds, &ID, &accounts.registrar.address)?;
        if !accounts.registrar.is_data_empty() {
            return Err(plugin_error(PluginError::InvalidRegistrar));
        }

        // 3: The max-voter-weight record PDA, when one is passed.
        let max_record = match accounts.max_voter_weight_record {
            Some(m) => {
                let mvwr_seeds = seeds3(&realm, &MAX_VOTER_WEIGHT_RECORD_SEED, &mint);
                let mvwr_bump = check_pda(&mvwr_seeds, &ID, &m.address)?;
                // Its initial data: u64::MAX, no expiry.
                let mut mvwr_data = zero_bytes(MAX_VOTER_WEIGHT_RECORD_SIZE);
                write_max_voter_weight_record(
                    mvwr_data.as_mut_slice(),
                    &MAX_VOTER_WEIGHT_RECORD,
                    &realm,
                    &mint,
                    u64::MAX,
                    None,
                );
                Some(NewMaxVoterWeightRecord {
                    create: CreateAccountCpi {
                        space: MAX_VOTER_WEIGHT_RECORD_SIZE as u64,
                        owner: ID,
                        signer_seeds: with_bump(mvwr_seeds, mvwr_bump),
                    },
                    data: mvwr_data,
                })
            },
            None => None,
        };

        // 4: The registrar's fields.
        let registrar_data = new_registrar_data(&self.args, &realm, &mint, reg_bump);

        Ok(CreateRegistrarOutcome {
            create_registrar: CreateAccountCpi {
                space: REGISTRAR_LEN as u64,
                owner: ID,
                signer_seeds: with_bump(reg_seeds, reg_bump),
            },
            registrar_data,
            max_voter_weight_record: max_record,
        })
    }
}

} // verus!
