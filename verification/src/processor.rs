//! The instruction-processing engine: decodes an instruction, validates
//! the caller-supplied account set against the storage record's
//! invariants, and computes the exact effects of the operation — the data
//! writes on the supplied accounts and the calls the host performs against
//! the asset-custody subsystem or the recorded strategy program.
//!
//! Every operation either fails before any effect, or yields its whole
//! effect list at once; the host applies it atomically.

use vstd::prelude::*;
use vstd::bytes::{spec_u64_to_le_bytes, u64_to_le_bytes};
use vstd::slice::slice_subrange;
use crate::accounts::{
    account_views, spec_passthrough_metas, push_passthrough_metas, Account, AccountMeta,
    AccountView,
};
use crate::addr::Address;
use crate::effects::{Action, ActionView, AuthorityKind, DataWrite, DataWriteView, Effects, EffectsView};
use crate::error::VaultError;
use crate::host::{
    derive_vault_authority, read_token_account, rent_minimum_balance, rent_minimum_of,
    rent_record_checked, rent_sysvar_address, spec_rent_record_checked,
    spec_rent_sysvar_address, spec_token_account, vault_authority_of,
};
use crate::instruction::{spec_unpack, VaultInstruction};
use crate::state::{spec_pack_vault, spec_unpack_vault, Vault};
use crate::strategy::{
    spec_create_estimate_value, spec_create_transfer, spec_pack_strategy, StrategyInstruction,
};

verus! {

/// The result of an operation, with the effects by value.
pub open spec fn spec_result_view(r: Result<Effects, VaultError>) -> Result<
    EffectsView,
    VaultError,
> {
    match r {
        Ok(e) => Ok(e@),
        Err(x) => Err(x),
    }
}

/// The storage record that initialization persists: populated from the
/// supplied account set, with the cached estimate cleared.
pub open spec fn spec_initialized_record(
    accounts: Seq<AccountView>,
    hodl: bool,
    deposit_id: u8,
    withdraw_id: u8,
    estimate_id: u8,
) -> Vault
    recommends
        accounts.len() >= 7,
{
    Vault {
        is_initialized: true,
        hodl,
        vault_token_account: accounts[2].key,
        llx_token_mint_id: accounts[3].key,
        strategy_program_id: accounts[5].key,
        strategy_program_deposit_instruction_id: deposit_id,
        strategy_program_withdraw_instruction_id: withdraw_id,
        strategy_program_estimate_instruction_id: estimate_id,
        last_estimated_value: 0u64,
    }
}

/// What initializing a vault does.
///
/// Accounts: 0 initializer, 1 storage, 2 held-balance token account,
/// 3 derivative mint, 4 token program, 5 strategy program, 6 rent sysvar.
///
/// The checks, in order: the initializer signed; the token account and
/// the mint are owned by the token program; the account in the rent slot
/// is the genuine rent sysvar and its record carries a supported
/// exemption threshold; the storage account meets the rent-exemption
/// minimum for its length; its bytes form a record of the expected
/// layout; the record is not yet initialized; the vault authority is
/// derivable.  On success: the populated record is written to the storage
/// account, and the token account's owner authority and the mint's mint
/// authority are reassigned to the derived vault authority.
pub open spec fn spec_initialize(
    program_id: Address,
    accounts: Seq<AccountView>,
    hodl: bool,
    deposit_id: u8,
    withdraw_id: u8,
    estimate_id: u8,
) -> Result<EffectsView, VaultError> {
    if accounts.len() < 7 {
        Err(VaultError::NotEnoughAccounts)
    } else {
        let initializer = accounts[0];
        let storage = accounts[1];
        let vault_token = accounts[2];
        let mint = accounts[3];
        let token_program = accounts[4];
        let rent = accounts[6];
        if !initializer.is_signer {
            Err(VaultError::MissingSignature)
        } else if vault_token.owner != token_program.key || mint.owner != token_program.key {
            Err(VaultError::WrongOwner)
        } else if rent.key != spec_rent_sysvar_address() || !spec_rent_record_checked(rent.data) {
            Err(VaultError::InvalidAccountData)
        } else {
            match rent_minimum_of(rent.data, storage.data.len() as u64) {
                None => Err(VaultError::InvalidAccountData),
                Some(minimum) => {
                    if storage.lamports < minimum {
                        Err(VaultError::NotRentExempt)
                    } else {
                        match spec_unpack_vault(storage.data) {
                            None => Err(VaultError::InvalidAccountData),
                            Some(record) => {
                                if record.is_initialized {
                                    Err(VaultError::AlreadyInitialized)
                                } else {
                                    match vault_authority_of(program_id) {
                                        None => Err(VaultError::AuthorityUnavailable),
                                        Some(pda) => Ok(
                                            EffectsView {
                                                writes: seq![
                                                    DataWriteView {
                                                        account_index: 1,
                                                        data: spec_pack_vault(
                                                            spec_initialized_record(
                                                                accounts,
                                                                hodl,
                                                                deposit_id,
                                                                withdraw_id,
                                                                estimate_id,
                                                            ),
                                                        ),
                                                    },
                                                ],
                                                actions: seq![
                                                    ActionView::SetAuthority {
                                                        token_program: token_program.key,
                                                        account: vault_token.key,
                                                        new_authority: pda,
                                                        kind: AuthorityKind::AccountOwner,
                                                        current_authority: initializer.key,
                                                    },
                                                    ActionView::SetAuthority {
                                                        token_program: token_program.key,
                                                        account: mint.key,
                                                        new_authority: pda,
                                                        kind: AuthorityKind::MintTokens,
                                                        current_authority: initializer.key,
                                                    },
                                                ],
                                            },
                                        ),
                                    }
                                }
                            },
                        }
                    }
                },
            }
        }
    }
}

/// What a deposit or withdrawal does.
///
/// Accounts: 0 token program, 1 source, 2 target, 3 source authority,
/// 4 storage, 5 strategy program; for hodl vaults 6 is the held-balance
/// account; anything further is forwarded verbatim to the strategy.
///
/// The storage record must be initialized and the supplied strategy
/// program must equal the recorded one.  A hodl deposit transfers from
/// the source into the held-balance account under the caller's authority;
/// a hodl withdrawal first re-reads the held-balance account and fails
/// with `AccountInconsistency` unless its recorded owner is the derived
/// vault authority, then transfers to the target countersigned by that
/// authority.  A non-hodl vault instead re-invokes the recorded strategy
/// program under its registered opcode, passing the source authority and
/// every extra account through; withdrawals are countersigned by the
/// vault.
pub open spec fn spec_transfer(
    program_id: Address,
    accounts: Seq<AccountView>,
    amount: u64,
    is_deposit: bool,
) -> Result<EffectsView, VaultError> {
    if accounts.len() < 6 {
        Err(VaultError::NotEnoughAccounts)
    } else {
        let token_program = accounts[0];
        let source = accounts[1];
        let target = accounts[2];
        let source_authority = accounts[3];
        let storage = accounts[4];
        let strategy = accounts[5];
        match spec_unpack_vault(storage.data) {
            None => Err(VaultError::InvalidAccountData),
            Some(record) => {
                if !record.is_initialized {
                    Err(VaultError::InvalidInstruction)
                } else if strategy.key != record.strategy_program_id {
                    Err(VaultError::InvalidInstruction)
                } else if record.hodl {
                    if accounts.len() < 7 {
                        Err(VaultError::NotEnoughAccounts)
                    } else {
                        let x_token = accounts[6];
                        if is_deposit {
                            Ok(
                                EffectsView {
                                    writes: seq![],
                                    actions: seq![
                                        ActionView::Transfer {
                                            token_program: token_program.key,
                                            source: source.key,
                                            destination: x_token.key,
                                            authority: source_authority.key,
                                            amount,
                                            vault_signed: false,
                                        },
                                    ],
                                },
                            )
                        } else {
                            match vault_authority_of(program_id) {
                                None => Err(VaultError::AuthorityUnavailable),
                                Some(pda) => {
                                    match spec_token_account(x_token.data) {
                                        None => Err(VaultError::InvalidAccountData),
                                        Some(held) => {
                                            if !held.initialized {
                                                Err(VaultError::InvalidAccountData)
                                            } else if held.owner != pda {
                                                Err(VaultError::AccountInconsistency)
                                            } else {
                                                Ok(
                                                    EffectsView {
                                                        writes: seq![],
                                                        actions: seq![
                                                            ActionView::Transfer {
                                                                token_program: token_program.key,
                                                                source: x_token.key,
                                                                destination: target.key,
                                                                authority: pda,
                                                                amount,
                                                                vault_signed: true,
                                                            },
                                                        ],
                                                    },
                                                )
                                            }
                                        },
                                    }
                                },
                            }
                        }
                    }
                } else {
                    let metas = seq![
                        AccountMeta { address: source_authority.key, is_signer: true, is_writable: false },
                    ] + spec_passthrough_metas(accounts, 6);
                    let operation = if is_deposit {
                        StrategyInstruction::Deposit { amount }
                    } else {
                        StrategyInstruction::Withdraw { amount }
                    };
                    let opcode = if is_deposit {
                        record.strategy_program_deposit_instruction_id
                    } else {
                        record.strategy_program_withdraw_instruction_id
                    };
                    Ok(
                        EffectsView {
                            writes: seq![],
                            actions: seq![
                                ActionView::InvokeStrategy {
                                    instruction: spec_create_transfer(
                                        spec_pack_strategy(operation, opcode),
                                        record.strategy_program_id,
                                        token_program.key,
                                        source.key,
                                        target.key,
                                        metas,
                                    ),
                                    vault_signed: !is_deposit,
                                },
                            ],
                        },
                    )
                }
            },
        }
    }
}

/// What estimating the vault's value does.
///
/// Accounts: 0 calling program, 1 scratch output, 2 storage; 3 is the
/// held-balance account (hodl) or the strategy program; anything further
/// is forwarded verbatim to the strategy.
///
/// The storage record must be initialized.  A hodl vault reads the
/// held-balance account's current amount and writes it, as 8 bytes
/// little-endian, into the scratch account, which must have at least
/// 8 bytes of storage.  A non-hodl vault checks the supplied strategy
/// program against the recorded one and forwards the call under the
/// strategy's registered estimate opcode, handing it the same scratch
/// output, so valuation recurses transparently through wrapped vaults.
pub open spec fn spec_estimate(program_id: Address, accounts: Seq<AccountView>) -> Result<
    EffectsView,
    VaultError,
> {
    if accounts.len() < 3 {
        Err(VaultError::NotEnoughAccounts)
    } else {
        let scratch = accounts[1];
        let storage = accounts[2];
        match spec_unpack_vault(storage.data) {
            None => Err(VaultError::InvalidAccountData),
            Some(record) => {
                if !record.is_initialized {
                    Err(VaultError::InvalidInstruction)
                } else if accounts.len() < 4 {
                    Err(VaultError::NotEnoughAccounts)
                } else if record.hodl {
                    let x_token = accounts[3];
                    match spec_token_account(x_token.data) {
                        None => Err(VaultError::InvalidAccountData),
                        Some(held) => {
                            if scratch.data.len() < 8 {
                                Err(VaultError::InsufficientSpace)
                            } else {
                                Ok(
                                    EffectsView {
                                        writes: seq![
                                            DataWriteView {
                                                account_index: 1,
                                                data: spec_u64_to_le_bytes(held.amount),
                                            },
                                        ],
                                        actions: seq![],
                                    },
                                )
                            }
                        },
                    }
                } else {
                    let strategy = accounts[3];
                    if strategy.key != record.strategy_program_id {
                        Err(VaultError::InvalidInstruction)
                    } else {
                        Ok(
                            EffectsView {
                                writes: seq![],
                                actions: seq![
                                    ActionView::InvokeStrategy {
                                        instruction: spec_create_estimate_value(
                                            spec_pack_strategy(
                                                StrategyInstruction::EstimateValue {},
                                                record.strategy_program_estimate_instruction_id,
                                            ),
                                            record.strategy_program_id,
                                            program_id,
                                            scratch.key,
                                            spec_passthrough_metas(accounts, 4),
                                        ),
                                        vault_signed: false,
                                    },
                                ],
                            },
                        )
                    }
                }
            },
        }
    }
}

/// What a raw scratch write does: the payload replaces the leading bytes
/// of the first account's storage, and must fit in it.
pub open spec fn spec_write_data_op(accounts: Seq<AccountView>, payload: Seq<u8>) -> Result<
    EffectsView,
    VaultError,
> {
    if accounts.len() < 1 {
        Err(VaultError::NotEnoughAccounts)
    } else if payload.len() > accounts[0].data.len() {
        Err(VaultError::InsufficientSpace)
    } else {
        Ok(EffectsView { writes: seq![DataWriteView { account_index: 0, data: payload }], actions: seq![] })
    }
}

/// Whether the instruction carries the debug forced-failure flag.
pub open spec fn spec_debug_crash(ix: VaultInstruction) -> bool {
    match ix {
        VaultInstruction::InitializeVault { debug_crash, .. } => debug_crash,
        VaultInstruction::Deposit { debug_crash, .. } => debug_crash,
        VaultInstruction::Withdraw { debug_crash, .. } => debug_crash,
        VaultInstruction::EstimateValue { debug_crash } => debug_crash,
        VaultInstruction::WriteData { debug_crash } => debug_crash,
    }
}

/// What a decoded operation does, before the debug flag is applied.
pub open spec fn spec_dispatch(
    program_id: Address,
    accounts: Seq<AccountView>,
    ix: VaultInstruction,
    data: Seq<u8>,
) -> Result<EffectsView, VaultError> {
    match ix {
        VaultInstruction::InitializeVault {
            strategy_program_deposit_instruction_id,
            strategy_program_withdraw_instruction_id,
            strategy_program_estimate_instruction_id,
            hodl,
            ..
        } => spec_initialize(
            program_id,
            accounts,
            hodl,
            strategy_program_deposit_instruction_id,
            strategy_program_withdraw_instruction_id,
            strategy_program_estimate_instruction_id,
        ),
        VaultInstruction::Deposit { amount, .. } => spec_transfer(
            program_id,
            accounts,
            amount,
            true,
        ),
        VaultInstruction::Withdraw { amount, .. } => spec_transfer(
            program_id,
            accounts,
            amount,
            false,
        ),
        VaultInstruction::EstimateValue { .. } => spec_estimate(program_id, accounts),
        VaultInstruction::WriteData { .. } => spec_write_data_op(accounts, data.skip(1)),
    }
}

/// What processing raw instruction bytes does: decode, dispatch, and —
/// where the tag carried the debug flag and the operation itself
/// succeeded — fail with `ForcedCrash` so the host discards the effects.
pub open spec fn spec_process(
    program_id: Address,
    accounts: Seq<AccountView>,
    data: Seq<u8>,
) -> Result<EffectsView, VaultError> {
    match spec_unpack(data) {
        None => Err(VaultError::InvalidInstruction),
        Some(ix) => match spec_dispatch(program_id, accounts, ix, data) {
            Err(e) => Err(e),
            Ok(effects) => if spec_debug_crash(ix) {
                Err(VaultError::ForcedCrash)
            } else {
                Ok(effects)
            },
        },
    }
}

pub struct Processor;

impl Processor {
    /// Processes one instruction against the supplied accounts, returning
    /// the effects to apply or the error that aborts the operation.
    pub fn process(
        program_id: &Address,
        accounts: &Vec<Account>,
        instruction_data: &[u8],
    ) -> (r: Result<Effects, VaultError>)
        ensures
            spec_result_view(r) == spec_process(
                *program_id,
                account_views(accounts@),
                instruction_data@,
            ),
    {
        let ix = match VaultInstruction::unpack(instruction_data) {
            Ok(ix) => ix,
            Err(e) => {
                return Err(e);
            },
        };
        let debug_crash = match ix {
            VaultInstruction::InitializeVault { debug_crash, .. } => debug_crash,
            VaultInstruction::Deposit { debug_crash, .. } => debug_crash,
            VaultInstruction::Withdraw { debug_crash, .. } => debug_crash,
            VaultInstruction::EstimateValue { debug_crash } => debug_crash,
            VaultInstruction::WriteData { debug_crash } => debug_crash,
        };
        let result = match ix {
            VaultInstruction::InitializeVault {
                strategy_program_deposit_instruction_id,
                strategy_program_withdraw_instruction_id,
                strategy_program_estimate_instruction_id,
                hodl,
                debug_crash: _,
            } => Self::process_initialize_vault(
                program_id,
                accounts,
                hodl,
                strategy_program_deposit_instruction_id,
                strategy_program_withdraw_instruction_id,
                strategy_program_estimate_instruction_id,
            ),
            VaultInstruction::Deposit { amount, .. } => Self::process_transfer(
                program_id,
                accounts,
                amount,
                true,
            ),
            VaultInstruction::Withdraw { amount, .. } => Self::process_transfer(
                program_id,
                accounts,
                amount,
                false,
            ),
            VaultInstruction::EstimateValue { .. } => Self::process_estimate_value(
                program_id,
                accounts,
            ),
            VaultInstruction::WriteData { .. } => {
                let payload = slice_subrange(instruction_data, 1, instruction_data.len());
                proof {
                    assert(payload@ =~= instruction_data@.skip(1));
                }
                Self::process_write_data(accounts, payload)
            },
        };
        match result {
            Err(e) => Err(e),
            Ok(effects) => {
                if debug_crash {
                    Err(VaultError::ForcedCrash)
                } else {
                    Ok(effects)
                }
            },
        }
    }

    /// Initializes the vault storage record and reassigns custody and mint
    /// authority to the derived vault authority.
    fn process_initialize_vault(
        program_id: &Address,
        accounts: &Vec<Account>,
        hodl: bool,
        deposit_id: u8,
        withdraw_id: u8,
        estimate_id: u8,
    ) -> (r: Result<Effects, VaultError>)
        ensures
            spec_result_view(r) == spec_initialize(
                *program_id,
                account_views(accounts@),
                hodl,
                deposit_id,
                withdraw_id,
                estimate_id,
            ),
    {
        if accounts.len() < 7 {
            return Err(VaultError::NotEnoughAccounts);
        }
        let initializer = &accounts[0];
        let storage = &accounts[1];
        let vault_token = &accounts[2];
        let mint = &accounts[3];
        let token_program = &accounts[4];
        let strategy = &accounts[5];
        let rent = &accounts[6];
        if !initializer.is_signer {
            return Err(VaultError::MissingSignature);
        }
        if vault_token.owner != token_program.key || mint.owner != token_program.key {
            return Err(VaultError::WrongOwner);
        }
        if rent.key != rent_sysvar_address() || !rent_record_checked(rent.data.as_slice()) {
            return Err(VaultError::InvalidAccountData);
        }
        let minimum = match rent_minimum_balance(rent.data.as_slice(), storage.data.len() as u64) {
            None => {
                return Err(VaultError::InvalidAccountData);
            },
            Some(m) => m,
        };
        if storage.lamports < minimum {
            return Err(VaultError::NotRentExempt);
        }
        let record = match Vault::unpack(storage.data.as_slice()) {
            None => {
                return Err(VaultError::InvalidAccountData);
            },
            Some(v) => v,
        };
        if record.is_initialized {
            return Err(VaultError::AlreadyInitialized);
        }
        let pda = match derive_vault_authority(program_id) {
            None => {
                return Err(VaultError::AuthorityUnavailable);
            },
            Some(p) => p,
        };
        let new_record = Vault {
            is_initialized: true,
            hodl,
            vault_token_account: vault_token.key,
            llx_token_mint_id: mint.key,
            strategy_program_id: strategy.key,
            strategy_program_deposit_instruction_id: deposit_id,
            strategy_program_withdraw_instruction_id: withdraw_id,
            strategy_program_estimate_instruction_id: estimate_id,
            last_estimated_value: 0,
        };
        let packed = new_record.pack();
        let mut writes: Vec<DataWrite> = Vec::new();
        writes.push(DataWrite { account_index: 1, data: packed });
        let mut actions: Vec<Action> = Vec::new();
        actions.push(
            Action::SetAuthority {
                token_program: token_program.key,
                account: vault_token.key,
                new_authority: pda,
                kind: AuthorityKind::AccountOwner,
                current_authority: initializer.key,
            },
        );
        actions.push(
            Action::SetAuthority {
                token_program: token_program.key,
                account: mint.key,
                new_authority: pda,
                kind: AuthorityKind::MintTokens,
                current_authority: initializer.key,
            },
        );
        let effects = Effects { writes, actions };
        proof {
            let s = spec_initialize(
                *program_id,
                account_views(accounts@),
                hodl,
                deposit_id,
                withdraw_id,
                estimate_id,
            );
            assert(s is Ok);
            assert(effects@.writes =~~= s->Ok_0.writes);
            assert(effects@.actions =~~= s->Ok_0.actions);
            assert(effects@ =~~= s->Ok_0);
        }
        Ok(effects)
    }

    /// Executes a deposit or withdrawal, either against the directly held
    /// balance or by re-invoking the recorded strategy program.
    fn process_transfer(
        program_id: &Address,
        accounts: &Vec<Account>,
        amount: u64,
        is_deposit: bool,
    ) -> (r: Result<Effects, VaultError>)
        ensures
            spec_result_view(r) == spec_transfer(
                *program_id,
                account_views(accounts@),
                amount,
                is_deposit,
            ),
    {
        if accounts.len() < 6 {
            return Err(VaultError::NotEnoughAccounts);
        }
        let token_program = &accounts[0];
        let source = &accounts[1];
        let target = &accounts[2];
        let source_authority = &accounts[3];
        let storage = &accounts[4];
        let strategy = &accounts[5];
        let record = match Vault::unpack(storage.data.as_slice()) {
            None => {
                return Err(VaultError::InvalidAccountData);
            },
            Some(v) => v,
        };
        if !record.is_initialized {
            return Err(VaultError::InvalidInstruction);
        }
        if strategy.key != record.strategy_program_id {
            return Err(VaultError::InvalidInstruction);
        }
        if record.hodl {
            if accounts.len() < 7 {
                return Err(VaultError::NotEnoughAccounts);
            }
            let x_token = &accounts[6];
            if is_deposit {
                let mut actions: Vec<Action> = Vec::new();
                actions.push(
                    Action::Transfer {
                        token_program: token_program.key,
                        source: source.key,
                        destination: x_token.key,
                        authority: source_authority.key,
                        amount,
                        vault_signed: false,
                    },
                );
                let effects = Effects { writes: Vec::new(), actions };
                proof {
                    let s = spec_transfer(
                        *program_id,
                        account_views(accounts@),
                        amount,
                        is_deposit,
                    );
                    assert(effects@.writes =~~= s->Ok_0.writes);
                    assert(effects@.actions =~~= s->Ok_0.actions);
                    assert(effects@ =~~= s->Ok_0);
                }
                Ok(effects)
            } else {
                let pda = match derive_vault_authority(program_id) {
                    None => {
                        return Err(VaultError::AuthorityUnavailable);
                    },
                    Some(p) => p,
                };
                let held = match read_token_account(x_token.data.as_slice()) {
                    None => {
                        return Err(VaultError::InvalidAccountData);
                    },
                    Some(h) => h,
                };
                if !held.initialized {
                    return Err(VaultError::InvalidAccountData);
                }
                if held.owner != pda {
                    return Err(VaultError::AccountInconsistency);
                }
                let mut actions: Vec<Action> = Vec::new();
                actions.push(
                    Action::Transfer {
                        token_program: token_program.key,
                        source: x_token.key,
                        destination: target.key,
                        authority: pda,
                        amount,
                        vault_signed: true,
                    },
                );
                let effects = Effects { writes: Vec::new(), actions };
                proof {
                    let s = spec_transfer(
                        *program_id,
                        account_views(accounts@),
                        amount,
                        is_deposit,
                    );
                    assert(effects@.writes =~~= s->Ok_0.writes);
                    assert(effects@.actions =~~= s->Ok_0.actions);
                    assert(effects@ =~~= s->Ok_0);
                }
                Ok(effects)
            }
        } else {
            let mut metas: Vec<AccountMeta> = Vec::new();
            metas.push(AccountMeta::readonly(source_authority.key, true));
            push_passthrough_metas(&mut metas, accounts, 6);
            let instruction = if is_deposit {
                StrategyInstruction::deposit(
                    record.strategy_program_deposit_instruction_id,
                    &record.strategy_program_id,
                    &token_program.key,
                    &source.key,
                    &target.key,
                    metas,
                    amount,
                )
            } else {
                StrategyInstruction::withdraw(
                    record.strategy_program_withdraw_instruction_id,
                    &record.strategy_program_id,
                    &token_program.key,
                    &source.key,
                    &target.key,
                    metas,
                    amount,
                )
            };
            let ix = match instruction {
                Ok(ix) => ix,
                Err(e) => {
                    return Err(e);
                },
            };
            let mut actions: Vec<Action> = Vec::new();
            actions.push(Action::InvokeStrategy { instruction: ix, vault_signed: !is_deposit });
            let effects = Effects { writes: Vec::new(), actions };
            proof {
                let s = spec_transfer(*program_id, account_views(accounts@), amount, is_deposit);
                assert(s is Ok);
                assert(effects@.actions[0]->InvokeStrategy_instruction.accounts =~= s
                    ->Ok_0.actions[0]->InvokeStrategy_instruction.accounts);
                assert(effects@.actions[0] =~~= s->Ok_0.actions[0]);
                assert(effects@.writes =~~= s->Ok_0.writes);
                assert(effects@.actions =~~= s->Ok_0.actions);
                assert(effects@ =~~= s->Ok_0);
            }
            Ok(effects)
        }
    }

    /// Computes the vault's current value and routes it to the scratch
    /// output: directly for a hodl vault, through the strategy otherwise.
    fn process_estimate_value(program_id: &Address, accounts: &Vec<Account>) -> (r: Result<
        Effects,
        VaultError,
    >)
        ensures
            spec_result_view(r) == spec_estimate(*program_id, account_views(accounts@)),
    {
        if accounts.len() < 3 {
            return Err(VaultError::NotEnoughAccounts);
        }
        let scratch = &accounts[1];
        let storage = &accounts[2];
        let record = match Vault::unpack(storage.data.as_slice()) {
            None => {
                return Err(VaultError::InvalidAccountData);
            },
            Some(v) => v,
        };
        if !record.is_initialized {
            return Err(VaultError::InvalidInstruction);
        }
        if accounts.len() < 4 {
            return Err(VaultError::NotEnoughAccounts);
        }
        if record.hodl {
            let x_token = &accounts[3];
            let held = match read_token_account(x_token.data.as_slice()) {
                None => {
                    return Err(VaultError::InvalidAccountData);
                },
                Some(h) => h,
            };
            if scratch.data.len() < 8 {
                return Err(VaultError::InsufficientSpace);
            }
            let payload = u64_to_le_bytes(held.amount);
            let mut writes: Vec<DataWrite> = Vec::new();
            writes.push(DataWrite { account_index: 1, data: payload });
            let effects = Effects { writes, actions: Vec::new() };
            proof {
                let s = spec_estimate(*program_id, account_views(accounts@));
                assert(s is Ok);
                assert(effects@.writes =~~= s->Ok_0.writes);
                assert(effects@.actions =~~= s->Ok_0.actions);
                assert(effects@ =~~= s->Ok_0);
            }
            Ok(effects)
        } else {
            let strategy = &accounts[3];
            if strategy.key != record.strategy_program_id {
                return Err(VaultError::InvalidInstruction);
            }
            let mut metas: Vec<AccountMeta> = Vec::new();
            push_passthrough_metas(&mut metas, accounts, 4);
            let instruction = StrategyInstruction::estimate_value(
                record.strategy_program_estimate_instruction_id,
                &record.strategy_program_id,
                program_id,
                &scratch.key,
                metas,
            );
            let ix = match instruction {
                Ok(ix) => ix,
                Err(e) => {
                    return Err(e);
                },
            };
            let mut actions: Vec<Action> = Vec::new();
            actions.push(Action::InvokeStrategy { instruction: ix, vault_signed: false });
            let effects = Effects { writes: Vec::new(), actions };
            proof {
                let s = spec_estimate(*program_id, account_views(accounts@));
                assert(s is Ok);
                assert(effects@.actions[0]->InvokeStrategy_instruction.accounts =~= s
                    ->Ok_0.actions[0]->InvokeStrategy_instruction.accounts);
                assert(effects@.actions[0] =~~= s->Ok_0.actions[0]);
                assert(effects@.writes =~~= s->Ok_0.writes);
                assert(effects@.actions =~~= s->Ok_0.actions);
                assert(effects@ =~~= s->Ok_0);
            }
            Ok(effects)
        }
    }

    /// Overwrites the leading bytes of the scratch account with the
    /// payload that followed the instruction tag.
    fn process_write_data(accounts: &Vec<Account>, data: &[u8]) -> (r: Result<
        Effects,
        VaultError,
    >)
        ensures
            spec_result_view(r) == spec_write_data_op(account_views(accounts@), data@),
    {
        if accounts.len() < 1 {
            return Err(VaultError::NotEnoughAccounts);
        }
        let scratch = &accounts[0];
        if data.len() > scratch.data.len() {
            return Err(VaultError::InsufficientSpace);
        }
        let mut payload: Vec<u8> = Vec::new();
        payload.extend_from_slice(data);
        let mut writes: Vec<DataWrite> = Vec::new();
        writes.push(DataWrite { account_index: 0, data: payload });
        let effects = Effects { writes, actions: Vec::new() };
        proof {
            let s = spec_write_data_op(account_views(accounts@), data@);
            assert(s is Ok);
            assert(effects@.writes =~~= s->Ok_0.writes);
            assert(effects@.actions =~~= s->Ok_0.actions);
            assert(effects@ =~~= s->Ok_0);
        }
        Ok(effects)
    }
}

} // verus!
