//! The laws of the engine: properties that relate several operations, or
//! an operation and the custody ledger, stated over the same spec
//! functions the executable functions are proved against.

use vstd::prelude::*;
use vstd::bytes::{lemma_auto_spec_u64_to_from_le_bytes, spec_u64_to_le_bytes};
use crate::accounts::AccountView;
use crate::addr::Address;
use crate::effects::{spec_apply_writes, DataWriteView, EffectsView};
use crate::error::VaultError;
use crate::host::{
    rent_minimum_of, spec_rent_record_checked, spec_rent_sysvar_address, spec_token_account,
    vault_authority_of,
};
use crate::instruction::{spec_unpack, VaultInstruction};
use crate::ledger::{
    lemma_ledger_transfer_round_trip, spec_apply_transfer_action, TokenBalance,
};
use crate::processor::{
    spec_debug_crash, spec_dispatch, spec_estimate, spec_initialize, spec_initialized_record,
    spec_process, spec_transfer,
};
use crate::state::{lemma_pack_vault_len, lemma_vault_round_trip, spec_pack_vault, spec_unpack_vault};

verus! {

/// Law: a well-formed initialization is accepted.  With enough accounts,
/// a signing initializer, a custody-owned token account and mint, the
/// genuine rent sysvar carrying a supported record, a rent-exempt storage
/// account whose bytes form a not-yet-initialized record, and a derivable
/// authority, the operation succeeds, and the one record it writes is the
/// populated record with its initialized flag set.
pub proof fn lemma_initialize_succeeds(
    program_id: Address,
    accounts: Seq<AccountView>,
    hodl: bool,
    deposit_id: u8,
    withdraw_id: u8,
    estimate_id: u8,
)
    requires
        accounts.len() >= 7,
        accounts[0].is_signer,
        accounts[2].owner == accounts[4].key,
        accounts[3].owner == accounts[4].key,
        accounts[6].key == spec_rent_sysvar_address(),
        spec_rent_record_checked(accounts[6].data),
        (rent_minimum_of(accounts[6].data, accounts[1].data.len() as u64) matches Some(minimum)
            && accounts[1].lamports >= minimum),
        (spec_unpack_vault(accounts[1].data) matches Some(record) && !record.is_initialized),
        vault_authority_of(program_id) is Some,
    ensures
        (spec_initialize(program_id, accounts, hodl, deposit_id, withdraw_id, estimate_id)
            matches Ok(effects) && effects.writes.len() == 1 && spec_unpack_vault(
            effects.writes[0].data,
        ) == Some(spec_initialized_record(accounts, hodl, deposit_id, withdraw_id, estimate_id))
            && spec_initialized_record(
            accounts,
            hodl,
            deposit_id,
            withdraw_id,
            estimate_id,
        ).is_initialized),
{
    lemma_vault_round_trip(
        spec_initialized_record(accounts, hodl, deposit_id, withdraw_id, estimate_id),
    );
}

/// Law: initialization succeeds at most once per storage account.  After
/// the writes of a successful initialization are applied, any further
/// initialization of the same account set fails with `AlreadyInitialized`,
/// whatever parameters it carries.
pub proof fn lemma_initialize_once(
    program_id: Address,
    accounts: Seq<AccountView>,
    hodl: bool,
    deposit_id: u8,
    withdraw_id: u8,
    estimate_id: u8,
    second_program_id: Address,
    hodl2: bool,
    deposit_id2: u8,
    withdraw_id2: u8,
    estimate_id2: u8,
)
    requires
        spec_initialize(program_id, accounts, hodl, deposit_id, withdraw_id, estimate_id) is Ok,
    ensures
        ({
            let effects = spec_initialize(
                program_id,
                accounts,
                hodl,
                deposit_id,
                withdraw_id,
                estimate_id,
            )->Ok_0;
            spec_initialize(
                second_program_id,
                spec_apply_writes(accounts, effects.writes),
                hodl2,
                deposit_id2,
                withdraw_id2,
                estimate_id2,
            ) == Err::<EffectsView, VaultError>(VaultError::AlreadyInitialized)
        }),
{
    let effects = spec_initialize(
        program_id,
        accounts,
        hodl,
        deposit_id,
        withdraw_id,
        estimate_id,
    )->Ok_0;
    let record = crate::processor::spec_initialized_record(
        accounts,
        hodl,
        deposit_id,
        withdraw_id,
        estimate_id,
    );
    lemma_pack_vault_len(record);
    lemma_vault_round_trip(record);
    let w = effects.writes[0];
    let after = spec_apply_writes(accounts, effects.writes);
    assert(effects.writes.len() == 1);
    assert(w.account_index == 1);
    assert(w.data == spec_pack_vault(record));
    assert(effects.writes.skip(1) =~= Seq::<DataWriteView>::empty());
    let once = crate::effects::spec_apply_write(accounts, w);
    assert(after == spec_apply_writes(once, effects.writes.skip(1)));
    assert(spec_apply_writes(once, effects.writes.skip(1)) == once);
    let storage = accounts[1];
    let storage2 = AccountView {
        key: storage.key,
        owner: storage.owner,
        lamports: storage.lamports,
        data: w.data + storage.data.skip(w.data.len() as int),
        is_signer: storage.is_signer,
        is_writable: storage.is_writable,
    };
    assert(once =~~= accounts.update(1, storage2));
    assert(storage2.data =~= w.data);
    assert(spec_unpack_vault(spec_apply_writes(accounts, effects.writes)[1].data) == Some(record));
}

/// Law: a withdrawal from a hodl vault fails with `AccountInconsistency`
/// whenever the held-balance account's recorded owner is not the vault's
/// derived authority at call time.
pub proof fn lemma_withdraw_checks_authority(
    program_id: Address,
    accounts: Seq<AccountView>,
    amount: u64,
)
    requires
        accounts.len() >= 7,
        (spec_unpack_vault(accounts[4].data) matches Some(record) && record.is_initialized
            && record.hodl && accounts[5].key == record.strategy_program_id),
        (vault_authority_of(program_id) matches Some(pda) && spec_token_account(accounts[6].data)
            matches Some(held) && held.initialized && held.owner != pda),
    ensures
        spec_transfer(program_id, accounts, amount, false) == Err::<EffectsView, VaultError>(
            VaultError::AccountInconsistency,
        ),
{
}

/// Law: estimating a hodl vault's value writes exactly the held-balance
/// account's current amount, as 8 little-endian bytes, to the scratch
/// output — whatever history of deposits and withdrawals produced that
/// amount.
pub proof fn lemma_estimate_reads_held_balance(program_id: Address, accounts: Seq<AccountView>)
    requires
        accounts.len() >= 4,
        (spec_unpack_vault(accounts[2].data) matches Some(record) && record.is_initialized
            && record.hodl),
        spec_token_account(accounts[3].data) is Some,
        accounts[1].data.len() >= 8,
    ensures
        spec_estimate(program_id, accounts) == Ok::<EffectsView, VaultError>(
            EffectsView {
                writes: seq![
                    DataWriteView {
                        account_index: 1,
                        data: spec_u64_to_le_bytes(spec_token_account(accounts[3].data)->0.amount),
                    },
                ],
                actions: seq![],
            },
        ),
{
}

/// Law: depositing an amount into a freshly initialized hodl vault and
/// then withdrawing the same amount restores the source account's balance
/// exactly and leaves the vault's held-balance account at zero.
pub proof fn lemma_hodl_deposit_withdraw_round_trip(
    program_id: Address,
    deposit_accounts: Seq<AccountView>,
    withdraw_accounts: Seq<AccountView>,
    ledger: Map<Address, TokenBalance>,
    amount: u64,
)
    requires
        spec_transfer(program_id, deposit_accounts, amount, true) is Ok,
        spec_transfer(program_id, withdraw_accounts, amount, false) is Ok,
        deposit_accounts.len() >= 7,
        withdraw_accounts.len() >= 7,
        (spec_unpack_vault(deposit_accounts[4].data) matches Some(deposit_record)
            && deposit_record.hodl),
        (spec_unpack_vault(withdraw_accounts[4].data) matches Some(withdraw_record)
            && withdraw_record.hodl),
        withdraw_accounts[6].key == deposit_accounts[6].key,
        withdraw_accounts[2].key == deposit_accounts[1].key,
        ledger.dom().contains(deposit_accounts[1].key),
        ledger.dom().contains(deposit_accounts[6].key),
        deposit_accounts[1].key != deposit_accounts[6].key,
        ledger[deposit_accounts[1].key].owner == deposit_accounts[3].key,
        ledger[deposit_accounts[1].key].amount >= amount,
        ledger[deposit_accounts[6].key].amount == 0,
        (vault_authority_of(program_id) matches Some(pda) && ledger[deposit_accounts[6].key].owner
            == pda),
    ensures
        ({
            let deposit_action = spec_transfer(
                program_id,
                deposit_accounts,
                amount,
                true,
            )->Ok_0.actions[0];
            let withdraw_action = spec_transfer(
                program_id,
                withdraw_accounts,
                amount,
                false,
            )->Ok_0.actions[0];
            spec_apply_transfer_action(ledger, deposit_action) matches Some(mid)
                && spec_apply_transfer_action(mid, withdraw_action) matches Some(back) && back
                == ledger && back[deposit_accounts[1].key].amount
                == ledger[deposit_accounts[1].key].amount && back[deposit_accounts[6].key].amount
                == 0
        }),
{
    let source = deposit_accounts[1].key;
    let held = deposit_accounts[6].key;
    let pda = vault_authority_of(program_id)->0;
    let deposit_action = spec_transfer(program_id, deposit_accounts, amount, true)->Ok_0.actions[0];
    let withdraw_action = spec_transfer(
        program_id,
        withdraw_accounts,
        amount,
        false,
    )->Ok_0.actions[0];
    let mid = spec_apply_transfer_action(ledger, deposit_action)->0;
    lemma_ledger_transfer_round_trip(
        ledger,
        mid,
        source,
        held,
        deposit_accounts[3].key,
        pda,
        amount,
    );
    let back = spec_apply_transfer_action(mid, withdraw_action)->0;
    assert(back =~= ledger);
}

/// Law: valuation recurses transparently.  The call a non-hodl vault
/// forwards to its strategy is, when the strategy is itself a vault using
/// the vault's own estimate opcode, exactly an estimate-value instruction
/// on the same scratch output; processing it on any account set is the
/// same as querying that inner vault directly.
pub proof fn lemma_estimate_delegation_transparent(
    program_id: Address,
    outer_accounts: Seq<AccountView>,
    inner_program_id: Address,
    inner_accounts: Seq<AccountView>,
)
    requires
        spec_estimate(program_id, outer_accounts) is Ok,
        outer_accounts.len() >= 4,
        (spec_unpack_vault(outer_accounts[2].data) matches Some(record) && !record.hodl
            && record.strategy_program_estimate_instruction_id == 3),
    ensures
        ({
            let forwarded = spec_estimate(
                program_id,
                outer_accounts,
            )->Ok_0.actions[0]->InvokeStrategy_instruction;
            &&& forwarded.program_id == spec_unpack_vault(
                outer_accounts[2].data,
            )->0.strategy_program_id
            &&& forwarded.accounts[1].address == outer_accounts[1].key
            &&& spec_unpack(forwarded.data) == Some(
                VaultInstruction::EstimateValue { debug_crash: false },
            )
            &&& spec_process(inner_program_id, inner_accounts, forwarded.data) == spec_estimate(
                inner_program_id,
                inner_accounts,
            )
        }),
{
    let forwarded = spec_estimate(
        program_id,
        outer_accounts,
    )->Ok_0.actions[0]->InvokeStrategy_instruction;
    assert(forwarded.data =~= seq![3u8]);
}

/// Law: deposits recurse transparently.  The call a non-hodl vault
/// forwards to its strategy carries, when the strategy registered the
/// vault's own deposit opcode, exactly a deposit of the same amount;
/// processing it on any account set is the same as depositing into that
/// inner vault directly.
pub proof fn lemma_deposit_delegation_transparent(
    program_id: Address,
    outer_accounts: Seq<AccountView>,
    inner_program_id: Address,
    inner_accounts: Seq<AccountView>,
    amount: u64,
)
    requires
        spec_transfer(program_id, outer_accounts, amount, true) is Ok,
        outer_accounts.len() >= 6,
        (spec_unpack_vault(outer_accounts[4].data) matches Some(record) && !record.hodl
            && record.strategy_program_deposit_instruction_id == 1),
    ensures
        ({
            let forwarded = spec_transfer(
                program_id,
                outer_accounts,
                amount,
                true,
            )->Ok_0.actions[0]->InvokeStrategy_instruction;
            &&& forwarded.program_id == spec_unpack_vault(
                outer_accounts[4].data,
            )->0.strategy_program_id
            &&& spec_unpack(forwarded.data) == Some(
                VaultInstruction::Deposit { amount, debug_crash: false },
            )
            &&& spec_process(inner_program_id, inner_accounts, forwarded.data) == spec_transfer(
                inner_program_id,
                inner_accounts,
                amount,
                true,
            )
        }),
{
    lemma_auto_spec_u64_to_from_le_bytes();
    let forwarded = spec_transfer(
        program_id,
        outer_accounts,
        amount,
        true,
    )->Ok_0.actions[0]->InvokeStrategy_instruction;
    assert(forwarded.data =~= seq![1u8] + spec_u64_to_le_bytes(amount));
    assert(forwarded.data.subrange(1, 9) =~= spec_u64_to_le_bytes(amount));
}

/// Law: an instruction whose tag carries the debug forced-failure flag
/// always fails with `ForcedCrash` once the operation itself succeeded,
/// so the host discards the computed effects.
pub proof fn lemma_forced_crash(program_id: Address, accounts: Seq<AccountView>, data: Seq<u8>)
    requires
        (spec_unpack(data) matches Some(ix) && spec_debug_crash(ix) && spec_dispatch(
            program_id,
            accounts,
            ix,
            data,
        ) is Ok),
    ensures
        spec_process(program_id, accounts, data) == Err::<EffectsView, VaultError>(
            VaultError::ForcedCrash,
        ),
{
}

/// Law: a tag of 65 with a well-formed payload decodes to a deposit with
/// the debug forced-failure flag set.
pub proof fn lemma_debug_deposit_decode(data: Seq<u8>)
    requires
        data.len() >= 9,
        data[0] == 65,
    ensures
        spec_unpack(data) == Some(
            VaultInstruction::Deposit {
                amount: vstd::bytes::spec_u64_from_le_bytes(data.subrange(1, 9)),
                debug_crash: true,
            },
        ),
{
}

} // verus!
