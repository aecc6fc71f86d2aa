//! The shared strategy-protocol codec.
//!
//! Strategy programs implement the same deposit / withdraw / estimate-value
//! contract as the vault itself, but under opcode numbers of their own,
//! recorded in the vault's storage at initialization.  The first byte of a
//! strategy instruction is that opcode; the operation is selected by the
//! caller, not read back from the byte.

use vstd::prelude::*;
use vstd::bytes::{
    lemma_auto_spec_u64_to_from_le_bytes, spec_u64_from_le_bytes, spec_u64_to_le_bytes,
    u64_from_le_bytes, u64_to_le_bytes,
};
use vstd::slice::slice_subrange;
use crate::accounts::{AccountMeta, Instruction, InstructionView};
use crate::addr::Address;
use crate::error::{StrategyError, VaultError};

verus! {

/// The conventional strategy opcode for deposits.
pub const DEPOSIT: u8 = 0;

/// The conventional strategy opcode for withdrawals.
pub const WITHDRAW: u8 = 1;

/// The conventional strategy opcode for value estimation.
pub const ESTIMATE_VALUE: u8 = 2;

/// One decoded strategy operation.
#[derive(Clone, Copy, PartialEq, Eq, Structural, Debug)]
pub enum StrategyInstruction {
    /// Moves `amount` of the base asset into the strategy.
    ///
    /// Accounts expected:
    /// 0. `[]` the asset-custody (token) program
    /// 1. `[writable]` the source token account
    /// 2. `[writable]` the target token account
    /// 3... source signers and any extra accounts the strategy requires
    Deposit { amount: u64 },
    /// Moves `amount` of the base asset out of the strategy.  Same account
    /// list as `Deposit`.
    Withdraw { amount: u64 },
    /// Writes the strategy's current value, as 8 little-endian bytes, into
    /// a caller-supplied scratch account.
    ///
    /// Accounts expected:
    /// 0. `[]` the calling program
    /// 1. `[writable]` the scratch output account
    /// 2... any extra accounts the strategy requires
    EstimateValue {},
}

/// The byte encoding of a strategy operation under opcode `instruction_id`.
pub open spec fn spec_pack_strategy(ix: StrategyInstruction, instruction_id: u8) -> Seq<u8> {
    match ix {
        StrategyInstruction::Deposit { amount } => seq![instruction_id]
            + spec_u64_to_le_bytes(amount),
        StrategyInstruction::Withdraw { amount } => seq![instruction_id]
            + spec_u64_to_le_bytes(amount),
        StrategyInstruction::EstimateValue {} => seq![instruction_id],
    }
}

/// The operation encoded by `input` when the caller selected
/// `strategy_instruction`: the first byte is presence-checked but the
/// operation is chosen by the selector alone.  `None` where the buffer is
/// empty, an amount cannot be sliced, or the selector is unrecognized.
pub open spec fn spec_unpack_strategy(input: Seq<u8>, strategy_instruction: u8) -> Option<
    StrategyInstruction,
> {
    if input.len() == 0 {
        None
    } else if strategy_instruction == ESTIMATE_VALUE {
        Some(StrategyInstruction::EstimateValue {})
    } else if input.len() >= 9 {
        let amount = spec_u64_from_le_bytes(input.subrange(1, 9));
        if strategy_instruction == DEPOSIT {
            Some(StrategyInstruction::Deposit { amount })
        } else if strategy_instruction == WITHDRAW {
            Some(StrategyInstruction::Withdraw { amount })
        } else {
            None
        }
    } else {
        None
    }
}

/// The selector under which a strategy operation is conventionally packed.
pub open spec fn spec_conventional_id(ix: StrategyInstruction) -> u8 {
    match ix {
        StrategyInstruction::Deposit { .. } => DEPOSIT,
        StrategyInstruction::Withdraw { .. } => WITHDRAW,
        StrategyInstruction::EstimateValue {} => ESTIMATE_VALUE,
    }
}

/// Packing a strategy operation under its conventional selector and
/// unpacking the bytes with the same selector yields the operation back.
pub proof fn lemma_strategy_round_trip(ix: StrategyInstruction)
    ensures
        spec_unpack_strategy(spec_pack_strategy(ix, spec_conventional_id(ix)), spec_conventional_id(ix))
            == Some(ix),
{
    lemma_auto_spec_u64_to_from_le_bytes();
    match ix {
        StrategyInstruction::Deposit { amount } => {
            assert(spec_pack_strategy(ix, DEPOSIT).subrange(1, 9) =~= spec_u64_to_le_bytes(amount));
        },
        StrategyInstruction::Withdraw { amount } => {
            assert(spec_pack_strategy(ix, WITHDRAW).subrange(1, 9) =~= spec_u64_to_le_bytes(
                amount,
            ));
        },
        StrategyInstruction::EstimateValue {} => {},
    }
}

impl StrategyInstruction {
    /// Unpacks a byte buffer as the operation selected by
    /// `strategy_instruction`.
    pub fn unpack(input: &[u8], strategy_instruction: u8) -> (r: Result<
        StrategyInstruction,
        StrategyError,
    >)
        ensures
            (match spec_unpack_strategy(input@, strategy_instruction) {
                Some(ix) => r == Ok::<StrategyInstruction, StrategyError>(ix),
                None => r == Err::<StrategyInstruction, StrategyError>(
                    StrategyError::InvalidInstruction,
                ),
            }),
    {
        let n = input.len();
        if n == 0 {
            return Err(StrategyError::InvalidInstruction);
        }
        if strategy_instruction == ESTIMATE_VALUE {
            return Ok(StrategyInstruction::EstimateValue {});
        }
        if n < 9 {
            return Err(StrategyError::InvalidInstruction);
        }
        let amount = u64_from_le_bytes(slice_subrange(input, 1, 9));
        if strategy_instruction == DEPOSIT {
            Ok(StrategyInstruction::Deposit { amount })
        } else if strategy_instruction == WITHDRAW {
            Ok(StrategyInstruction::Withdraw { amount })
        } else {
            Err(StrategyError::InvalidInstruction)
        }
    }

    /// Packs the operation under the strategy's opcode `instruction_id`.
    pub fn pack(&self, instruction_id: u8) -> (r: Vec<u8>)
        ensures
            r@ == spec_pack_strategy(*self, instruction_id),
    {
        let mut buf: Vec<u8> = Vec::new();
        buf.push(instruction_id);
        match self {
            StrategyInstruction::Deposit { amount } => {
                let mut tail = u64_to_le_bytes(*amount);
                buf.append(&mut tail);
            },
            StrategyInstruction::Withdraw { amount } => {
                let mut tail = u64_to_le_bytes(*amount);
                buf.append(&mut tail);
            },
            StrategyInstruction::EstimateValue {} => {},
        }
        proof {
            assert(buf@ =~= spec_pack_strategy(*self, instruction_id));
        }
        buf
    }

    /// Builds a deposit call to a strategy that registered `instruction_id`
    /// as its deposit opcode.
    pub fn deposit(
        instruction_id: u8,
        program_id: &Address,
        token_program_id: &Address,
        source_pubkey: &Address,
        target_pubkey: &Address,
        additional_account_metas: Vec<AccountMeta>,
        amount: u64,
    ) -> (r: Result<Instruction, VaultError>)
        ensures
            (r matches Ok(ix) && ix@ == spec_create_transfer(
                spec_pack_strategy(StrategyInstruction::Deposit { amount }, instruction_id),
                *program_id,
                *token_program_id,
                *source_pubkey,
                *target_pubkey,
                additional_account_metas@,
            )),
    {
        create_transfer(
            (StrategyInstruction::Deposit { amount }).pack(instruction_id),
            program_id,
            token_program_id,
            source_pubkey,
            target_pubkey,
            additional_account_metas,
        )
    }

    /// Builds a withdraw call to a strategy that registered
    /// `instruction_id` as its withdraw opcode.
    pub fn withdraw(
        instruction_id: u8,
        program_id: &Address,
        token_program_id: &Address,
        source_pubkey: &Address,
        target_pubkey: &Address,
        additional_account_metas: Vec<AccountMeta>,
        amount: u64,
    ) -> (r: Result<Instruction, VaultError>)
        ensures
            (r matches Ok(ix) && ix@ == spec_create_transfer(
                spec_pack_strategy(StrategyInstruction::Withdraw { amount }, instruction_id),
                *program_id,
                *token_program_id,
                *source_pubkey,
                *target_pubkey,
                additional_account_metas@,
            )),
    {
        create_transfer(
            (StrategyInstruction::Withdraw { amount }).pack(instruction_id),
            program_id,
            token_program_id,
            source_pubkey,
            target_pubkey,
            additional_account_metas,
        )
    }

    /// Builds an estimate-value call to a strategy that registered
    /// `instruction_id` as its estimate opcode.
    pub fn estimate_value(
        instruction_id: u8,
        program_id: &Address,
        vault_program_id: &Address,
        shared_memory_account: &Address,
        additional_account_metas: Vec<AccountMeta>,
    ) -> (r: Result<Instruction, VaultError>)
        ensures
            (r matches Ok(ix) && ix@ == spec_create_estimate_value(
                spec_pack_strategy(StrategyInstruction::EstimateValue {}, instruction_id),
                *program_id,
                *vault_program_id,
                *shared_memory_account,
                additional_account_metas@,
            )),
    {
        create_estimate_value(
            (StrategyInstruction::EstimateValue {}).pack(instruction_id),
            program_id,
            vault_program_id,
            shared_memory_account,
            additional_account_metas,
        )
    }
}

/// The instruction a transfer-shaped call hands to the host: the token
/// program, source and target first, then the caller's extra metas.
pub open spec fn spec_create_transfer(
    data: Seq<u8>,
    program_id: Address,
    token_program_id: Address,
    source_pubkey: Address,
    target_pubkey: Address,
    additional_account_metas: Seq<AccountMeta>,
) -> InstructionView {
    InstructionView {
        program_id,
        accounts: seq![
            AccountMeta { address: token_program_id, is_signer: false, is_writable: false },
            AccountMeta { address: source_pubkey, is_signer: false, is_writable: true },
            AccountMeta { address: target_pubkey, is_signer: false, is_writable: true },
        ] + additional_account_metas,
        data,
    }
}

/// The instruction an estimate-value call hands to the host: the calling
/// vault program and the scratch output first, then the extra metas.
pub open spec fn spec_create_estimate_value(
    data: Seq<u8>,
    program_id: Address,
    vault_program_id: Address,
    shared_memory_account: Address,
    additional_account_metas: Seq<AccountMeta>,
) -> InstructionView {
    InstructionView {
        program_id,
        accounts: seq![
            AccountMeta { address: vault_program_id, is_signer: false, is_writable: false },
            AccountMeta { address: shared_memory_account, is_signer: false, is_writable: true },
        ] + additional_account_metas,
        data,
    }
}

/// Assembles a transfer-shaped cross-program instruction.
pub fn create_transfer(
    data: Vec<u8>,
    program_id: &Address,
    token_program_id: &Address,
    source_pubkey: &Address,
    target_pubkey: &Address,
    additional_account_metas: Vec<AccountMeta>,
) -> (r: Result<Instruction, VaultError>)
    ensures
        (r matches Ok(ix) && ix@ == spec_create_transfer(
            data@,
            *program_id,
            *token_program_id,
            *source_pubkey,
            *target_pubkey,
            additional_account_metas@,
        )),
{
    let mut metas = additional_account_metas;
    let mut accounts: Vec<AccountMeta> = Vec::new();
    accounts.push(AccountMeta::readonly(*token_program_id, false));
    accounts.push(AccountMeta::writable(*source_pubkey, false));
    accounts.push(AccountMeta::writable(*target_pubkey, false));
    accounts.append(&mut metas);
    let ix = Instruction { program_id: *program_id, accounts, data };
    proof {
        assert(ix@.accounts =~= seq![
            AccountMeta { address: *token_program_id, is_signer: false, is_writable: false },
            AccountMeta { address: *source_pubkey, is_signer: false, is_writable: true },
            AccountMeta { address: *target_pubkey, is_signer: false, is_writable: true },
        ] + additional_account_metas@);
    }
    Ok(ix)
}

/// Assembles an estimate-value cross-program instruction.
pub fn create_estimate_value(
    data: Vec<u8>,
    program_id: &Address,
    vault_program_id: &Address,
    shared_memory_account: &Address,
    additional_account_metas: Vec<AccountMeta>,
) -> (r: Result<Instruction, VaultError>)
    ensures
        (r matches Ok(ix) && ix@ == spec_create_estimate_value(
            data@,
            *program_id,
            *vault_program_id,
            *shared_memory_account,
            additional_account_metas@,
        )),
{
    let mut metas = additional_account_metas;
    let mut accounts: Vec<AccountMeta> = Vec::new();
    accounts.push(AccountMeta::readonly(*vault_program_id, false));
    accounts.push(AccountMeta::writable(*shared_memory_account, false));
    accounts.append(&mut metas);
    let ix = Instruction { program_id: *program_id, accounts, data };
    proof {
        assert(ix@.accounts =~= seq![
            AccountMeta { address: *vault_program_id, is_signer: false, is_writable: false },
            AccountMeta { address: *shared_memory_account, is_signer: false, is_writable: true },
        ] + additional_account_metas@);
    }
    Ok(ix)
}

} // verus!
