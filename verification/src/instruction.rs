//! The vault wire codec: packing and unpacking the binary instruction
//! format, and builders for the instructions a client submits.
//!
//! The first byte of an instruction is its opcode tag; tags of 64 and above
//! select the same opcode as `tag - 64` but carry the debug forced-failure
//! flag, which makes the operation fail after computing its effects.

use vstd::prelude::*;
use vstd::bytes::{
    lemma_auto_spec_u64_to_from_le_bytes, spec_u64_from_le_bytes, spec_u64_to_le_bytes,
    u64_from_le_bytes, u64_to_le_bytes,
};
use vstd::slice::{slice_index_get, slice_subrange};
use crate::accounts::{AccountMeta, Instruction, InstructionView};
use crate::addr::Address;
use crate::error::VaultError;
use crate::host::{rent_sysvar_address, spec_rent_sysvar_address};
use crate::state::spec_bool_byte;
use crate::strategy::{
    spec_create_estimate_value, spec_create_transfer, create_estimate_value, create_transfer,
};

verus! {

/// Tags at or above this value carry the debug forced-failure flag.
pub const CRASH_FLAG: u8 = 64;

/// One decoded vault operation.
///
/// A vault accepts a base asset (X) and either holds it directly (a "hodl"
/// vault) or forwards it to the strategy program recorded at
/// initialization; in exchange it mints a derivative receipt token (llX)
/// from its recorded mint.  Extra accounts passed to deposit, withdraw and
/// estimate-value calls are forwarded verbatim to the strategy.
#[derive(Clone, Copy, PartialEq, Eq, Structural, Debug)]
pub enum VaultInstruction {
    /// Populates a freshly allocated vault storage account and hands
    /// custody and mint authority to the vault's derived authority.
    ///
    /// Accounts expected:
    /// 0. `[signer]` the initializer, current token-account and mint owner
    /// 1. `[writable]` the vault storage account
    /// 2. `[writable]` the vault's held-balance token account
    /// 3. `[writable]` the derivative token mint
    /// 4. `[]` the asset-custody (token) program
    /// 5. `[]` the strategy program
    /// 6. `[]` the rent sysvar
    InitializeVault {
        strategy_program_deposit_instruction_id: u8,
        strategy_program_withdraw_instruction_id: u8,
        strategy_program_estimate_instruction_id: u8,
        hodl: bool,
        debug_crash: bool,
    },
    /// Moves `amount` of the base asset into the vault.
    ///
    /// Accounts expected:
    /// 0. `[]` the asset-custody (token) program
    /// 1. `[writable]` the source token account
    /// 2. `[writable]` the target token account for receipt tokens
    /// 3. `[signer]` the source authority
    /// 4. `[]` the vault storage account
    /// 5. `[]` the strategy program
    /// 6. `[writable]` the held-balance account, for hodl vaults
    /// 7... accounts forwarded verbatim to the strategy
    Deposit { amount: u64, debug_crash: bool },
    /// Moves `amount` of the base asset out of the vault, countersigned by
    /// the vault's derived authority.  Same account list as `Deposit`.
    Withdraw { amount: u64, debug_crash: bool },
    /// Computes the vault's current value in its base asset and writes it,
    /// as 8 little-endian bytes, into a caller-supplied scratch account.
    ///
    /// Accounts expected:
    /// 0. `[]` the calling program
    /// 1. `[writable]` the scratch output account
    /// 2. `[]` the vault storage account
    /// 3. `[]` the held-balance account (hodl) or the strategy program
    /// 4... accounts forwarded verbatim to the strategy
    EstimateValue { debug_crash: bool },
    /// Overwrites a scratch account's stored bytes with the payload that
    /// follows the tag byte.
    ///
    /// Accounts expected:
    /// 0. `[writable]` the scratch account
    WriteData { debug_crash: bool },
}

/// The tag byte encoding opcode `t`, with the debug flag folded in.
pub open spec fn spec_tag_byte(t: u8, debug_crash: bool) -> u8
    recommends
        t < CRASH_FLAG,
{
    if debug_crash {
        (t + CRASH_FLAG) as u8
    } else {
        t
    }
}

/// The byte encoding of an instruction.
pub open spec fn spec_pack(ix: VaultInstruction) -> Seq<u8> {
    match ix {
        VaultInstruction::InitializeVault {
            strategy_program_deposit_instruction_id: dep,
            strategy_program_withdraw_instruction_id: wd,
            strategy_program_estimate_instruction_id: est,
            hodl,
            debug_crash,
        } => seq![spec_tag_byte(0, debug_crash), spec_bool_byte(hodl), dep, wd, est],
        VaultInstruction::Deposit { amount, debug_crash } => seq![spec_tag_byte(1, debug_crash)]
            + spec_u64_to_le_bytes(amount),
        VaultInstruction::Withdraw { amount, debug_crash } => seq![spec_tag_byte(2, debug_crash)]
            + spec_u64_to_le_bytes(amount),
        VaultInstruction::EstimateValue { debug_crash } => seq![spec_tag_byte(3, debug_crash)],
        VaultInstruction::WriteData { debug_crash } => seq![spec_tag_byte(4, debug_crash)],
    }
}

/// The instruction encoded by `data`, or `None` where the tag is
/// unrecognized, a fixed-width field cannot be sliced to its width, or the
/// buffer is empty.  Bytes beyond an instruction's fixed fields are
/// ignored; the write-data payload is read separately from the raw buffer.
pub open spec fn spec_unpack(data: Seq<u8>) -> Option<VaultInstruction> {
    if data.len() == 0 {
        None
    } else {
        let tag_raw = data[0];
        let debug_crash = tag_raw >= CRASH_FLAG;
        let tag = if debug_crash {
            (tag_raw - CRASH_FLAG) as u8
        } else {
            tag_raw
        };
        if tag == 0 {
            if data.len() >= 5 {
                Some(
                    VaultInstruction::InitializeVault {
                        hodl: data[1] == 1,
                        strategy_program_deposit_instruction_id: data[2],
                        strategy_program_withdraw_instruction_id: data[3],
                        strategy_program_estimate_instruction_id: data[4],
                        debug_crash,
                    },
                )
            } else {
                None
            }
        } else if tag == 1 || tag == 2 {
            if data.len() >= 9 {
                let amount = spec_u64_from_le_bytes(data.subrange(1, 9));
                if tag == 1 {
                    Some(VaultInstruction::Deposit { amount, debug_crash })
                } else {
                    Some(VaultInstruction::Withdraw { amount, debug_crash })
                }
            } else {
                None
            }
        } else if tag == 3 {
            Some(VaultInstruction::EstimateValue { debug_crash })
        } else if tag == 4 {
            Some(VaultInstruction::WriteData { debug_crash })
        } else {
            None
        }
    }
}

/// Packing an instruction and unpacking the bytes yields the instruction
/// back: the wire format loses nothing.
pub proof fn lemma_instruction_round_trip(ix: VaultInstruction)
    ensures
        spec_unpack(spec_pack(ix)) == Some(ix),
{
    lemma_auto_spec_u64_to_from_le_bytes();
    match ix {
        VaultInstruction::Deposit { amount, .. } => {
            assert(spec_pack(ix).subrange(1, 9) =~= spec_u64_to_le_bytes(amount));
        },
        VaultInstruction::Withdraw { amount, .. } => {
            assert(spec_pack(ix).subrange(1, 9) =~= spec_u64_to_le_bytes(amount));
        },
        _ => {},
    }
}

impl VaultInstruction {
    /// Unpacks a byte buffer into a [`VaultInstruction`].
    pub fn unpack(input: &[u8]) -> (r: Result<VaultInstruction, VaultError>)
        ensures
            (match spec_unpack(input@) {
                Some(ix) => r == Ok::<VaultInstruction, VaultError>(ix),
                None => r == Err::<VaultInstruction, VaultError>(VaultError::InvalidInstruction),
            }),
    {
        let n = input.len();
        if n == 0 {
            return Err(VaultError::InvalidInstruction);
        }
        let tag_raw = *slice_index_get(input, 0);
        let debug_crash = tag_raw >= CRASH_FLAG;
        let tag = if debug_crash {
            tag_raw - CRASH_FLAG
        } else {
            tag_raw
        };
        if tag == 0 {
            if n < 5 {
                return Err(VaultError::InvalidInstruction);
            }
            Ok(
                VaultInstruction::InitializeVault {
                    hodl: *slice_index_get(input, 1) == 1,
                    strategy_program_deposit_instruction_id: *slice_index_get(input, 2),
                    strategy_program_withdraw_instruction_id: *slice_index_get(input, 3),
                    strategy_program_estimate_instruction_id: *slice_index_get(input, 4),
                    debug_crash,
                },
            )
        } else if tag == 1 || tag == 2 {
            if n < 9 {
                return Err(VaultError::InvalidInstruction);
            }
            let amount = u64_from_le_bytes(slice_subrange(input, 1, 9));
            if tag == 1 {
                Ok(VaultInstruction::Deposit { amount, debug_crash })
            } else {
                Ok(VaultInstruction::Withdraw { amount, debug_crash })
            }
        } else if tag == 3 {
            Ok(VaultInstruction::EstimateValue { debug_crash })
        } else if tag == 4 {
            Ok(VaultInstruction::WriteData { debug_crash })
        } else {
            Err(VaultError::InvalidInstruction)
        }
    }

    /// Packs the instruction into its byte encoding.
    pub fn pack(&self) -> (r: Vec<u8>)
        ensures
            r@ == spec_pack(*self),
    {
        let mut buf: Vec<u8> = Vec::new();
        match self {
            VaultInstruction::InitializeVault {
                strategy_program_deposit_instruction_id,
                strategy_program_withdraw_instruction_id,
                strategy_program_estimate_instruction_id,
                hodl,
                debug_crash,
            } => {
                buf.push(if *debug_crash {
                    CRASH_FLAG
                } else {
                    0
                });
                buf.push(if *hodl {
                    1
                } else {
                    0
                });
                buf.push(*strategy_program_deposit_instruction_id);
                buf.push(*strategy_program_withdraw_instruction_id);
                buf.push(*strategy_program_estimate_instruction_id);
            },
            VaultInstruction::Deposit { amount, debug_crash } => {
                buf.push(if *debug_crash {
                    1 + CRASH_FLAG
                } else {
                    1
                });
                let mut tail = u64_to_le_bytes(*amount);
                buf.append(&mut tail);
            },
            VaultInstruction::Withdraw { amount, debug_crash } => {
                buf.push(if *debug_crash {
                    2 + CRASH_FLAG
                } else {
                    2
                });
                let mut tail = u64_to_le_bytes(*amount);
                buf.append(&mut tail);
            },
            VaultInstruction::EstimateValue { debug_crash } => {
                buf.push(if *debug_crash {
                    3 + CRASH_FLAG
                } else {
                    3
                });
            },
            VaultInstruction::WriteData { debug_crash } => {
                buf.push(if *debug_crash {
                    4 + CRASH_FLAG
                } else {
                    4
                });
            },
        }
        proof {
            assert(buf@ =~= spec_pack(*self));
        }
        buf
    }

    /// Builds the instruction that overwrites a scratch account with `data`.
    pub fn write_data(
        vault_program_id: &Address,
        shared_memory_account: &Address,
        data: &[u8],
    ) -> (r: Result<Instruction, VaultError>)
        ensures
            (r matches Ok(ix) && ix@ == (InstructionView {
                program_id: *vault_program_id,
                accounts: seq![
                    AccountMeta { address: *shared_memory_account, is_signer: false, is_writable: true },
                ],
                data: spec_pack(VaultInstruction::WriteData { debug_crash: false }) + data@,
            })),
    {
        let mut accounts: Vec<AccountMeta> = Vec::new();
        accounts.push(AccountMeta::writable(*shared_memory_account, false));
        let mut instruction_data = (VaultInstruction::WriteData { debug_crash: false }).pack();
        let mut payload: Vec<u8> = Vec::new();
        payload.extend_from_slice(data);
        instruction_data.append(&mut payload);
        let ix = Instruction { program_id: *vault_program_id, accounts, data: instruction_data };
        proof {
            assert(ix@.accounts =~= seq![
                AccountMeta { address: *shared_memory_account, is_signer: false, is_writable: true },
            ]);
            assert(ix@.data =~= spec_pack(VaultInstruction::WriteData { debug_crash: false })
                + data@);
        }
        Ok(ix)
    }

    /// Builds the instruction that initializes a vault over the given
    /// storage, held-balance, mint, token-program and strategy accounts;
    /// the rent sysvar entry is filled in by the builder.
    pub fn initialize_vault(
        vault_program_id: &Address,
        initializer: &Address,
        vault_storage_account: &Address,
        vault_token_account: &Address,
        llx_token_mint_id: &Address,
        token_program: &Address,
        strategy_program: &Address,
        hodl: bool,
        strategy_program_deposit_instruction_id: u8,
        strategy_program_withdraw_instruction_id: u8,
        strategy_program_estimate_instruction_id: u8,
    ) -> (r: Result<Instruction, VaultError>)
        ensures
            (r matches Ok(ix) && ix@ == (InstructionView {
                program_id: *vault_program_id,
                accounts: seq![
                    AccountMeta { address: *initializer, is_signer: true, is_writable: false },
                    AccountMeta { address: *vault_storage_account, is_signer: false, is_writable: true },
                    AccountMeta { address: *vault_token_account, is_signer: false, is_writable: true },
                    AccountMeta { address: *llx_token_mint_id, is_signer: false, is_writable: true },
                    AccountMeta { address: *token_program, is_signer: false, is_writable: false },
                    AccountMeta { address: *strategy_program, is_signer: false, is_writable: false },
                    AccountMeta { address: spec_rent_sysvar_address(), is_signer: false, is_writable: false },
                ],
                data: spec_pack(VaultInstruction::InitializeVault {
                    strategy_program_deposit_instruction_id,
                    strategy_program_withdraw_instruction_id,
                    strategy_program_estimate_instruction_id,
                    hodl,
                    debug_crash: false,
                }),
            })),
    {
        let mut accounts: Vec<AccountMeta> = Vec::new();
        accounts.push(AccountMeta::readonly(*initializer, true));
        accounts.push(AccountMeta::writable(*vault_storage_account, false));
        accounts.push(AccountMeta::writable(*vault_token_account, false));
        accounts.push(AccountMeta::writable(*llx_token_mint_id, false));
        accounts.push(AccountMeta::readonly(*token_program, false));
        accounts.push(AccountMeta::readonly(*strategy_program, false));
        accounts.push(AccountMeta::readonly(rent_sysvar_address(), false));
        let data = (VaultInstruction::InitializeVault {
            strategy_program_deposit_instruction_id,
            strategy_program_withdraw_instruction_id,
            strategy_program_estimate_instruction_id,
            hodl,
            debug_crash: false,
        }).pack();
        let ix = Instruction { program_id: *vault_program_id, accounts, data };
        proof {
            assert(ix@.accounts =~= seq![
                AccountMeta { address: *initializer, is_signer: true, is_writable: false },
                AccountMeta { address: *vault_storage_account, is_signer: false, is_writable: true },
                AccountMeta { address: *vault_token_account, is_signer: false, is_writable: true },
                AccountMeta { address: *llx_token_mint_id, is_signer: false, is_writable: true },
                AccountMeta { address: *token_program, is_signer: false, is_writable: false },
                AccountMeta { address: *strategy_program, is_signer: false, is_writable: false },
                AccountMeta { address: spec_rent_sysvar_address(), is_signer: false, is_writable: false },
            ]);
        }
        Ok(ix)
    }

    /// Builds a deposit instruction moving `amount` of the base asset from
    /// the client's account into the vault.
    pub fn deposit(
        vault_program_id: &Address,
        token_program_id: &Address,
        client_x_token_account: &Address,
        client_lx_token_account: &Address,
        additional_account_metas: Vec<AccountMeta>,
        amount: u64,
    ) -> (r: Result<Instruction, VaultError>)
        ensures
            (r matches Ok(ix) && ix@ == spec_create_transfer(
                spec_pack(VaultInstruction::Deposit { amount, debug_crash: false }),
                *vault_program_id,
                *token_program_id,
                *client_x_token_account,
                *client_lx_token_account,
                additional_account_metas@,
            )),
    {
        create_transfer(
            (VaultInstruction::Deposit { amount, debug_crash: false }).pack(),
            vault_program_id,
            token_program_id,
            client_x_token_account,
            client_lx_token_account,
            additional_account_metas,
        )
    }

    /// Builds a withdraw instruction moving `amount` of the base asset from
    /// the vault back to the client's account.
    pub fn withdraw(
        vault_program_id: &Address,
        token_program_id: &Address,
        client_lx_token_account: &Address,
        client_x_token_account: &Address,
        additional_account_metas: Vec<AccountMeta>,
        amount: u64,
    ) -> (r: Result<Instruction, VaultError>)
        ensures
            (r matches Ok(ix) && ix@ == spec_create_transfer(
                spec_pack(VaultInstruction::Withdraw { amount, debug_crash: false }),
                *vault_program_id,
                *token_program_id,
                *client_lx_token_account,
                *client_x_token_account,
                additional_account_metas@,
            )),
    {
        create_transfer(
            (VaultInstruction::Withdraw { amount, debug_crash: false }).pack(),
            vault_program_id,
            token_program_id,
            client_lx_token_account,
            client_x_token_account,
            additional_account_metas,
        )
    }

    /// Builds an estimate-value instruction whose result lands in the given
    /// scratch output account.
    pub fn estimate_value(
        program_id: &Address,
        vault_program_id: &Address,
        shared_memory_account: &Address,
        additional_account_metas: Vec<AccountMeta>,
    ) -> (r: Result<Instruction, VaultError>)
        ensures
            (r matches Ok(ix) && ix@ == spec_create_estimate_value(
                spec_pack(VaultInstruction::EstimateValue { debug_crash: false }),
                *program_id,
                *vault_program_id,
                *shared_memory_account,
                additional_account_metas@,
            )),
    {
        create_estimate_value(
            (VaultInstruction::EstimateValue { debug_crash: false }).pack(),
            program_id,
            vault_program_id,
            shared_memory_account,
            additional_account_metas,
        )
    }
}

} // verus!
