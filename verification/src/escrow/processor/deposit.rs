//! `Deposit`: create the bidder's vault and lock the bid, or top it up.

use vstd::prelude::*;
use crate::common::{PHASE_ACTIVE, VAULT_SEED};
use crate::competition::discriminator::COMPETITION_STATE;
use crate::competition::state::{COMPETITION_STATE_LEN, COMP_PHASE, comp_discriminator, comp_phase};
use crate::escrow::args::DepositArgs;
use crate::escrow::discriminator::{ESCROW_VAULT, ID};
use crate::escrow::error::{TycheEscrowError, escrow_err, escrow_error};
use crate::escrow::state::{
    ESCROW_VAULT_LEN, VAULT_AMOUNT, VAULT_BUMP, VAULT_COMPETITION, VAULT_DEPOSITOR,
    vault_amount, vault_competition, vault_depositor, vault_discriminator,
};
use crate::layout::{
    bytes_equal_at, copy_bytes, put_bytes, put_u64, put_u8, read_u64, read_u8, write_bytes,
    write_u64, write_u8, zero_bytes, zeros,
};
use crate::program::{
    AccountState, CreateAccountCpi, ProgramError, check_pda, is_pda, pda_bump, seeds3,
    seeds_view, with_bump,
};

verus! {

/// Validated accounts of `Deposit`.
pub struct DepositAccounts<'a> {
    /// The vault PDA, created on the first deposit and updated on top-ups.
    pub vault: &'a AccountState,
    /// The bidder: pays the bid and owns the vault.
    pub depositor: &'a AccountState,
    /// Funds the vault's rent on the first deposit.
    pub payer: &'a AccountState,
    /// The competition the bid is for (read-only).
    pub competition: &'a AccountState,
    pub system_program: &'a AccountState,
}

/// The error that the account checks of `Deposit` report, if any.
pub open spec fn deposit_accounts_error(a: Seq<AccountState>) -> Option<ProgramError> {
    if a.len() < 5 {
        Some(ProgramError::NotEnoughAccountKeys)
    } else if !a[0].is_writable {
        Some(ProgramError::InvalidAccountData)
    } else if !a[1].is_signer {
        Some(ProgramError::MissingRequiredSignature)
    } else if !a[1].is_writable {
        Some(ProgramError::InvalidAccountData)
    } else if !a[2].is_signer {
        Some(ProgramError::MissingRequiredSignature)
    } else if !a[2].is_writable {
        Some(ProgramError::InvalidAccountData)
    } else {
        None
    }
}

impl<'a> DepositAccounts<'a> {
    /// Takes the first five accounts and checks writability and signatures.
    pub fn try_from(accounts: &'a [AccountState]) -> (r: Result<DepositAccounts<'a>, ProgramError>)
        ensures
            match deposit_accounts_error(accounts@) {
                Some(e) => r matches Err(x) && x == e,
                None => r matches Ok(x) && {
                    &&& *x.vault == accounts@[0]
                    &&& *x.depositor == accounts@[1]
                    &&& *x.payer == accounts@[2]
                    &&& *x.competition == accounts@[3]
                    &&& *x.system_program == accounts@[4]
                },
            },
    {
        if accounts.len() < 5 {
            return Err(ProgramError::NotEnoughAccountKeys);
        }
        let vault = &accounts[0];
        let depositor = &accounts[1];
        let payer = &accounts[2];
        let competition = &accounts[3];
        let system_program = &accounts[4];
        if !vault.is_writable {
            return Err(ProgramError::InvalidAccountData);
        }
        if !depositor.is_signer {
            return Err(ProgramError::MissingRequiredSignature);
        }
        if !depositor.is_writable {
            return Err(ProgramError::InvalidAccountData);
        }
        if !payer.is_signer {
            return Err(ProgramError::MissingRequiredSignature);
        }
        if !payer.is_writable {
            return Err(ProgramError::InvalidAccountData);
        }
        Ok(DepositAccounts { vault, depositor, payer, competition, system_program })
    }
}

/// Instruction context of `Deposit`.
pub struct DepositInstruction<'a> {
    pub accounts: DepositAccounts<'a>,
    pub args: DepositArgs,
}

/// The seeds of the vault of `depositor` in `competition`.
pub open spec fn vault_seeds(competition: Seq<u8>, depositor: Seq<u8>) -> Seq<Seq<u8>> {
    seq![VAULT_SEED@, competition, depositor]
}

/// The data of a freshly created vault holding `amount`.
pub open spec fn new_vault_bytes(competition: Seq<u8>, depositor: Seq<u8>, amount: u64, bump: u8) -> Seq<u8> {
    put_u8(
        put_u64(
            put_bytes(
                put_bytes(put_bytes(zeros(ESCROW_VAULT_LEN as nat), 0, ESCROW_VAULT@), VAULT_COMPETITION as int, competition),
                VAULT_DEPOSITOR as int,
                depositor,
            ),
            VAULT_AMOUNT as int,
            amount,
        ),
        VAULT_BUMP as int,
        bump,
    )
}

/// The error that `Deposit` reports for these account contents, if any.
pub open spec fn deposit_error(
    vault: Seq<u8>,
    vault_data: Seq<u8>,
    depositor: Seq<u8>,
    competition: Seq<u8>,
    competition_data: Seq<u8>,
    amount: u64,
) -> Option<ProgramError> {
    if amount == 0 {
        Some(escrow_err(TycheEscrowError::InvalidAmount))
    } else if competition_data.len() != COMPETITION_STATE_LEN {
        Some(ProgramError::InvalidAccountData)
    } else if comp_discriminator(competition_data) != COMPETITION_STATE@ {
        Some(escrow_err(TycheEscrowError::InvalidDiscriminator))
    } else if comp_phase(competition_data) != PHASE_ACTIVE {
        Some(escrow_err(TycheEscrowError::InvalidPhase))
    } else if !is_pda(vault_seeds(competition, depositor), ID@, vault) {
        Some(ProgramError::InvalidSeeds)
    } else if vault_data.len() == 0 {
        None
    } else if vault_data.len() != ESCROW_VAULT_LEN {
        Some(ProgramError::InvalidAccountData)
    } else if vault_discriminator(vault_data) != ESCROW_VAULT@ {
        Some(escrow_err(TycheEscrowError::InvalidDiscriminator))
    } else if vault_competition(vault_data) != competition {
        Some(ProgramError::InvalidAccountData)
    } else if vault_depositor(vault_data) != depositor {
        Some(ProgramError::InvalidAccountData)
    } else if vault_amount(vault_data) + amount > u64::MAX {
        Some(escrow_err(TycheEscrowError::ArithmeticOverflow))
    } else {
        None
    }
}

/// What a `Deposit` that passed its checks does, in order: create the vault
/// (first deposit only), transfer `transfer_lamports` from the depositor to
/// the vault, then store `vault_data` into the vault.
pub struct DepositOutcome {
    pub create_vault: Option<CreateAccountCpi>,
    pub transfer_lamports: u64,
    pub vault_data: Vec<u8>,
}

/// Whether `o` is the effect of a `Deposit` of `amount` that passed its checks.
pub open spec fn deposit_effects(
    vault_data: Seq<u8>,
    depositor: Seq<u8>,
    competition: Seq<u8>,
    amount: u64,
    o: DepositOutcome,
) -> bool {
    let seeds = vault_seeds(competition, depositor);
    let bump = pda_bump(seeds, ID@);
    &&& o.transfer_lamports == amount
    &&& if vault_data.len() == 0 {
        &&& o.create_vault matches Some(c) && {
            &&& c.space == ESCROW_VAULT_LEN
            &&& c.owner@ == ID@
            &&& seeds_view(c.signer_seeds@) == seeds.push(seq![bump])
        }
        &&& o.vault_data@ == new_vault_bytes(competition, depositor, amount, bump)
    } else {
        &&& o.create_vault is None
        &&& o.vault_data@ == put_u64(
            vault_data,
            VAULT_AMOUNT as int,
            (vault_amount(vault_data) + amount) as u64,
        )
    }
}

/// The data of a freshly created vault holding `amount`.
fn new_vault_data(competition: &[u8; 32], depositor: &[u8; 32], amount: u64, bump: u8) -> (v: Vec<u8>)
    ensures
        v@ == new_vault_bytes(competition@, depositor@, amount, bump),
{
    let mut v = zero_bytes(ESCROW_VAULT_LEN);
    write_bytes(v.as_mut_slice(), 0, &ESCROW_VAULT);
    write_bytes(v.as_mut_slice(), VAULT_COMPETITION, competition);
    write_bytes(v.as_mut_slice(), VAULT_DEPOSITOR, depositor);
    write_u64(v.as_mut_slice(), VAULT_AMOUNT, amount);
    write_u8(v.as_mut_slice(), VAULT_BUMP, bump);
    v
}

impl<'a> DepositInstruction<'a> {
    /// Validates the accounts, then reads the arguments.
    pub fn try_from(accounts: &'a [AccountState], data: &[u8]) -> (r: Result<DepositInstruction<'a>, ProgramError>)
        ensures
            match deposit_accounts_error(accounts@) {
                Some(e) => r matches Err(x) && x == e,
                None => if data@.len() != DepositArgs::LEN {
                    r matches Err(x) && x == ProgramError::InvalidInstructionData
                } else {
                    r matches Ok(ix) && {
                        &&& *ix.accounts.vault == accounts@[0]
                        &&& *ix.accounts.depositor == accounts@[1]
                        &&& *ix.accounts.payer == accounts@[2]
                        &&& *ix.accounts.competition == accounts@[3]
                        &&& *ix.accounts.system_program == accounts@[4]
                        &&& ix.args.amount == crate::layout::u64_at(data@, 0)
                    }
                },
            },
    {
        let accounts = DepositAccounts::try_from(accounts)?;
        let args = DepositArgs::load(data)?;
        Ok(DepositInstruction { accounts, args })
    }

    /// Checks the deposit and describes its effect.
    pub fn handler(&self) -> (r: Result<DepositOutcome, ProgramError>)
        ensures
            match deposit_error(
                self.accounts.vault.address@,
                self.accounts.vault.data@,
                self.accounts.depositor.address@,
                self.accounts.competition.address@,
                self.accounts.competition.data@,
                self.args.amount,
            ) {
                Some(e) => r matches Err(x) && x == e,
                None => r matches Ok(o) && deposit_effects(
                    self.accounts.vault.data@,
                    self.accounts.depositor.address@,
                    self.accounts.competition.address@,
                    self.args.amount,
                    o,
                ),
            },
    {
        let accounts = &self.accounts;
        let amount = self.args.amount;

        // 1: Reject zero-amount deposits.
        if amount == 0 {
            return Err(escrow_error(TycheEscrowError::InvalidAmount));
        }

        // 2: The competition must be an Active CompetitionState.
        let comp = accounts.competition.data.as_slice();
        if comp.len() != COMPETITION_STATE_LEN {
            return Err(ProgramError::InvalidAccountData);
        }
        if !bytes_equal_at(comp, 0, &COMPETITION_STATE) {
            return Err(escrow_error(TycheEscrowError::InvalidDiscriminator));
        }
        if read_u8(comp, COMP_PHASE) != PHASE_ACTIVE {
            return Err(escrow_error(TycheEscrowError::InvalidPhase));
        }

        // 3: The vault must be the depositor's vault PDA.
        let seeds = seeds3(&VAULT_SEED, &accounts.competition.address, &accounts.depositor.address);
        let bump = check_pda(&seeds, &ID, &accounts.vault.address)?;

        // 4: First deposit or top-up.
        if accounts.vault.is_data_empty() {
            let vault_data = new_vault_data(&accounts.competition.address, &accounts.depositor.address, amount, bump);
            Ok(DepositOutcome {
                create_vault: Some(CreateAccountCpi {
                    space: ESCROW_VAULT_LEN as u64,
                    owner: ID,
                    signer_seeds: with_bump(seeds, bump),
                }),
                transfer_lamports: amount,
                vault_data,
            })
        } else {
            let vd = accounts.vault.data.as_slice();
            if vd.len() != ESCROW_VAULT_LEN {
                return Err(ProgramError::InvalidAccountData);
            }
            if !bytes_equal_at(vd, 0, &ESCROW_VAULT) {
                return Err(escrow_error(TycheEscrowError::InvalidDiscriminator));
            }
            if !bytes_equal_at(vd, VAULT_COMPETITION, &accounts.competition.address) {
                return Err(ProgramError::InvalidAccountData);
            }
            if !bytes_equal_at(vd, VAULT_DEPOSITOR, &accounts.depositor.address) {
                return Err(ProgramError::InvalidAccountData);
            }
            let current = read_u64(vd, VAULT_AMOUNT);
            let total = match current.checked_add(amount) {
                Some(t) => t,
                None => return Err(escrow_error(TycheEscrowError::ArithmeticOverflow)),
            };
            let mut vault_data = copy_bytes(vd);
            write_u64(vault_data.as_mut_slice(), VAULT_AMOUNT, total);
            Ok(DepositOutcome { create_vault: None, transfer_lamports: amount, vault_data })
        }
    }
}

} // verus!
