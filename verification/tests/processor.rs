//! End-to-end scenarios against the instruction-processing engine, with
//! the real address derivation, rent schedule and token-account codec
//! linked in.

use vault::accounts::Account;
use vault::addr::Address;
use vault::effects::{apply_data_writes, Action, AuthorityKind};
use vault::error::VaultError;
use vault::host::rent_sysvar_address;
use vault::instruction::VaultInstruction;
use vault::ledger::encode_token_account;
use vault::processor::Processor;
use vault::state::{Vault, VAULT_LEN};

fn addr(n: u64) -> Address {
    Address { limb0: n, limb1: 100 + n, limb2: 200 + n, limb3: 300 + n }
}

fn address_from_bytes(b: &[u8; 32]) -> Address {
    Address {
        limb0: u64::from_le_bytes(b[0..8].try_into().unwrap()),
        limb1: u64::from_le_bytes(b[8..16].try_into().unwrap()),
        limb2: u64::from_le_bytes(b[16..24].try_into().unwrap()),
        limb3: u64::from_le_bytes(b[24..32].try_into().unwrap()),
    }
}

fn pubkey_of(a: &Address) -> solana_program::pubkey::Pubkey {
    let mut b = [0u8; 32];
    b[0..8].copy_from_slice(&a.limb0.to_le_bytes());
    b[8..16].copy_from_slice(&a.limb1.to_le_bytes());
    b[16..24].copy_from_slice(&a.limb2.to_le_bytes());
    b[24..32].copy_from_slice(&a.limb3.to_le_bytes());
    solana_program::pubkey::Pubkey::new_from_array(b)
}

fn derived_authority(program: &Address) -> Address {
    let (pda, _) =
        solana_program::pubkey::Pubkey::find_program_address(&[b"vault"], &pubkey_of(program));
    address_from_bytes(&pda.to_bytes())
}

fn rent_data() -> Vec<u8> {
    bincode::serialize(&solana_program::rent::Rent::default()).unwrap()
}

fn rent_minimum(len: usize) -> u64 {
    solana_program::rent::Rent::default().minimum_balance(len)
}

fn account(key: Address, owner: Address, lamports: u64, data: Vec<u8>, is_signer: bool) -> Account {
    Account { key, owner, lamports, data, is_signer, is_writable: true }
}

fn deposit_bytes(amount: u64) -> Vec<u8> {
    let mut b = vec![1u8];
    b.extend_from_slice(&amount.to_le_bytes());
    b
}

fn withdraw_bytes(amount: u64) -> Vec<u8> {
    let mut b = vec![2u8];
    b.extend_from_slice(&amount.to_le_bytes());
    b
}

/// The account list that initializes a vault: initializer, storage,
/// held-balance token account, mint, token program, strategy, rent.
fn init_accounts(vault_id: &Address, token_program: &Address, storage_key: &Address) -> Vec<Account> {
    vec![
        account(addr(3), addr(0), 0, vec![], true),
        account(*storage_key, *vault_id, rent_minimum(VAULT_LEN), vec![0u8; VAULT_LEN], false),
        account(addr(5), *token_program, 1, encode_token_account(&addr(3), 0), false),
        account(addr(6), *token_program, 1, vec![], false),
        account(*token_program, addr(0), 0, vec![], false),
        account(*vault_id, addr(0), 0, vec![], false),
        account(rent_sysvar_address(), addr(0), 1, rent_data(), false),
    ]
}

/// The stored record of an initialized hodl vault whose strategy slot
/// holds the vault program itself.
fn hodl_record(vault_id: &Address) -> Vault {
    Vault {
        is_initialized: true,
        hodl: true,
        vault_token_account: addr(5),
        llx_token_mint_id: addr(6),
        strategy_program_id: *vault_id,
        strategy_program_deposit_instruction_id: 99,
        strategy_program_withdraw_instruction_id: 99,
        strategy_program_estimate_instruction_id: 99,
        last_estimated_value: 0,
    }
}

#[test]
fn initialize_hodl_vault_and_only_once() {
    let vault_id = addr(1);
    let token_program = addr(2);
    let storage_key = addr(4);
    let mut accounts = init_accounts(&vault_id, &token_program, &storage_key);
    let effects = Processor::process(&vault_id, &accounts, &[0, 1, 99, 99, 99]).unwrap();

    assert_eq!(effects.writes.len(), 1);
    assert_eq!(effects.writes[0].account_index, 1);
    let record = Vault::unpack(&effects.writes[0].data).unwrap();
    assert_eq!(record, hodl_record(&vault_id));

    let pda = derived_authority(&vault_id);
    assert_eq!(effects.actions.len(), 2);
    assert_eq!(
        effects.actions[0],
        Action::SetAuthority {
            token_program,
            account: addr(5),
            new_authority: pda,
            kind: AuthorityKind::AccountOwner,
            current_authority: addr(3),
        }
    );
    assert_eq!(
        effects.actions[1],
        Action::SetAuthority {
            token_program,
            account: addr(6),
            new_authority: pda,
            kind: AuthorityKind::MintTokens,
            current_authority: addr(3),
        }
    );

    // a second initialization of the same storage account always fails
    apply_data_writes(&mut accounts, &effects);
    assert_eq!(
        Processor::process(&vault_id, &accounts, &[0, 0, 1, 2, 3]),
        Err(VaultError::AlreadyInitialized)
    );
}

#[test]
fn initialize_requires_signer() {
    let vault_id = addr(1);
    let mut accounts = init_accounts(&vault_id, &addr(2), &addr(4));
    accounts[0].is_signer = false;
    assert_eq!(
        Processor::process(&vault_id, &accounts, &[0, 1, 99, 99, 99]),
        Err(VaultError::MissingSignature)
    );
}

#[test]
fn initialize_requires_custody_ownership() {
    let vault_id = addr(1);
    let mut accounts = init_accounts(&vault_id, &addr(2), &addr(4));
    accounts[2].owner = addr(50);
    assert_eq!(
        Processor::process(&vault_id, &accounts, &[0, 1, 99, 99, 99]),
        Err(VaultError::WrongOwner)
    );
}

#[test]
fn initialize_requires_rent_exemption() {
    let vault_id = addr(1);
    let mut accounts = init_accounts(&vault_id, &addr(2), &addr(4));
    accounts[1].lamports = rent_minimum(VAULT_LEN) - 1;
    assert_eq!(
        Processor::process(&vault_id, &accounts, &[0, 1, 99, 99, 99]),
        Err(VaultError::NotRentExempt)
    );
}

#[test]
fn rent_sysvar_identity_matches_host() {
    // the library's pinned rent sysvar identity equals the host crate's
    let host_id = solana_program::sysvar::rent::id().to_bytes();
    assert_eq!(address_from_bytes(&host_id), rent_sysvar_address());
}

#[test]
fn initialize_requires_rent_sysvar_identity() {
    // a record of the right shape under a forged key is refused
    let vault_id = addr(1);
    let mut accounts = init_accounts(&vault_id, &addr(2), &addr(4));
    accounts[6].key = addr(7);
    assert_eq!(
        Processor::process(&vault_id, &accounts, &[0, 1, 99, 99, 99]),
        Err(VaultError::InvalidAccountData)
    );
}

#[test]
fn initialize_rejects_unsupported_rent_threshold() {
    // an extreme rate under a threshold the schedule cannot compute
    // without floating point is refused before the schedule is asked
    let vault_id = addr(1);
    let mut accounts = init_accounts(&vault_id, &addr(2), &addr(4));
    let mut forged = Vec::new();
    forged.extend_from_slice(&u64::MAX.to_le_bytes());
    forged.extend_from_slice(&3.0f64.to_le_bytes());
    forged.push(0);
    accounts[6].data = forged;
    assert_eq!(
        Processor::process(&vault_id, &accounts, &[0, 1, 99, 99, 99]),
        Err(VaultError::InvalidAccountData)
    );
}

#[test]
fn initialize_rejects_undecodable_rent_record() {
    let vault_id = addr(1);
    let mut accounts = init_accounts(&vault_id, &addr(2), &addr(4));
    accounts[6].data = vec![1, 2, 3];
    assert_eq!(
        Processor::process(&vault_id, &accounts, &[0, 1, 99, 99, 99]),
        Err(VaultError::InvalidAccountData)
    );
}

/// The account list of a hodl deposit or withdrawal: token program,
/// source, target, source authority, storage, strategy, held-balance
/// account.
fn hodl_transfer_accounts(
    vault_id: &Address,
    token_program: &Address,
    client_balance: u64,
    vault_owner: &Address,
    vault_balance: u64,
) -> Vec<Account> {
    vec![
        account(*token_program, addr(0), 0, vec![], false),
        account(addr(11), *token_program, 1, encode_token_account(&addr(3), client_balance), false),
        account(addr(12), *token_program, 1, encode_token_account(&addr(3), 0), false),
        account(addr(3), addr(0), 0, vec![], true),
        account(addr(4), *vault_id, 1, hodl_record(vault_id).pack(), false),
        account(*vault_id, addr(0), 0, vec![], false),
        account(addr(5), *token_program, 1, encode_token_account(vault_owner, vault_balance), false),
    ]
}

/// The account list of an estimate call: calling program, scratch output,
/// storage, held-balance account.
fn hodl_estimate_accounts(vault_id: &Address, vault_owner: &Address, vault_balance: u64) -> Vec<Account> {
    vec![
        account(*vault_id, addr(0), 0, vec![], false),
        account(addr(20), *vault_id, 0, vec![0u8; 8], false),
        account(addr(4), *vault_id, 1, hodl_record(vault_id).pack(), false),
        account(addr(5), addr(2), 1, encode_token_account(vault_owner, vault_balance), false),
    ]
}

#[test]
fn hodl_vault_scenario() {
    // mint 1000 to the client, deposit 100, estimate, withdraw 100
    let vault_id = addr(1);
    let token_program = addr(2);
    let pda = derived_authority(&vault_id);

    let deposit = Processor::process(
        &vault_id,
        &hodl_transfer_accounts(&vault_id, &token_program, 1000, &pda, 0),
        &deposit_bytes(100),
    )
    .unwrap();
    assert!(deposit.writes.is_empty());
    assert_eq!(
        deposit.actions,
        vec![Action::Transfer {
            token_program,
            source: addr(11),
            destination: addr(5),
            authority: addr(3),
            amount: 100,
            vault_signed: false,
        }]
    );

    // the custody subsystem now holds client 900, vault 100
    let mut estimate_accounts = hodl_estimate_accounts(&vault_id, &pda, 100);
    let estimate = Processor::process(&vault_id, &estimate_accounts, &[3]).unwrap();
    assert!(estimate.actions.is_empty());
    assert_eq!(estimate.writes.len(), 1);
    assert_eq!(estimate.writes[0].account_index, 1);
    assert_eq!(estimate.writes[0].data, 100u64.to_le_bytes().to_vec());
    apply_data_writes(&mut estimate_accounts, &estimate);
    assert_eq!(estimate_accounts[1].data, 100u64.to_le_bytes().to_vec());

    let withdraw = Processor::process(
        &vault_id,
        &hodl_transfer_accounts(&vault_id, &token_program, 900, &pda, 100),
        &withdraw_bytes(100),
    )
    .unwrap();
    assert_eq!(
        withdraw.actions,
        vec![Action::Transfer {
            token_program,
            source: addr(5),
            destination: addr(12),
            authority: pda,
            amount: 100,
            vault_signed: true,
        }]
    );

    // client back at 1000, vault at zero
    let final_estimate = Processor::process(
        &vault_id,
        &hodl_estimate_accounts(&vault_id, &pda, 0),
        &[3],
    )
    .unwrap();
    assert_eq!(final_estimate.writes[0].data, 0u64.to_le_bytes().to_vec());
}

#[test]
fn withdraw_requires_vault_authority() {
    // held-balance account owned by someone else than the derived
    // authority: the withdrawal must be refused
    let vault_id = addr(1);
    let accounts = hodl_transfer_accounts(&vault_id, &addr(2), 900, &addr(66), 100);
    assert_eq!(
        Processor::process(&vault_id, &accounts, &withdraw_bytes(100)),
        Err(VaultError::AccountInconsistency)
    );
}

#[test]
fn transfer_requires_initialized_storage() {
    let vault_id = addr(1);
    let mut accounts = hodl_transfer_accounts(&vault_id, &addr(2), 1000, &addr(66), 0);
    accounts[4].data = vec![0u8; VAULT_LEN];
    assert_eq!(
        Processor::process(&vault_id, &accounts, &deposit_bytes(100)),
        Err(VaultError::InvalidInstruction)
    );
}

#[test]
fn transfer_requires_recorded_strategy() {
    let vault_id = addr(1);
    let mut accounts = hodl_transfer_accounts(&vault_id, &addr(2), 1000, &addr(66), 0);
    accounts[5].key = addr(77);
    assert_eq!(
        Processor::process(&vault_id, &accounts, &deposit_bytes(100)),
        Err(VaultError::InvalidInstruction)
    );
}

#[test]
fn transfer_requires_enough_accounts() {
    let vault_id = addr(1);
    let mut accounts = hodl_transfer_accounts(&vault_id, &addr(2), 1000, &addr(66), 0);
    accounts.truncate(5);
    assert_eq!(
        Processor::process(&vault_id, &accounts, &deposit_bytes(100)),
        Err(VaultError::NotEnoughAccounts)
    );
}

#[test]
fn debug_flag_forces_crash_after_success() {
    // tag 65: a valid deposit that must still fail with the forced crash
    let vault_id = addr(1);
    let pda = derived_authority(&vault_id);
    let accounts = hodl_transfer_accounts(&vault_id, &addr(2), 1000, &pda, 0);
    let mut data = vec![65u8];
    data.extend_from_slice(&100u64.to_le_bytes());
    assert_eq!(
        Processor::process(&vault_id, &accounts, &data),
        Err(VaultError::ForcedCrash)
    );
}

/// The stored record of a wrapper vault delegating to the vault program
/// itself as its strategy, under the vault's own opcodes.
fn wrapper_record(vault_id: &Address) -> Vault {
    Vault {
        is_initialized: true,
        hodl: false,
        vault_token_account: addr(15),
        llx_token_mint_id: addr(16),
        strategy_program_id: *vault_id,
        strategy_program_deposit_instruction_id: 1,
        strategy_program_withdraw_instruction_id: 2,
        strategy_program_estimate_instruction_id: 3,
        last_estimated_value: 0,
    }
}

#[test]
fn wrapped_vault_deposit_matches_direct_deposit() {
    // a wrapper vault whose strategy is a hodl vault of the same program:
    // depositing through the wrapper forwards a deposit of the same
    // amount, and processing the forwarded call moves the same balance
    // into the same held-balance account as depositing directly
    let vault_id = addr(1);
    let token_program = addr(2);
    let pda = derived_authority(&vault_id);

    let outer_accounts = vec![
        account(token_program, addr(0), 0, vec![], false),
        account(addr(11), token_program, 1, encode_token_account(&addr(3), 1000), false),
        account(addr(31), token_program, 1, encode_token_account(&addr(3), 0), false),
        account(addr(3), addr(0), 0, vec![], true),
        account(addr(14), vault_id, 1, wrapper_record(&vault_id).pack(), false),
        account(vault_id, addr(0), 0, vec![], false),
        // forwarded to the inner hodl vault: its storage, its strategy
        // slot, its held-balance account
        account(addr(4), vault_id, 1, hodl_record(&vault_id).pack(), false),
        account(vault_id, addr(0), 0, vec![], false),
        account(addr(5), token_program, 1, encode_token_account(&pda, 0), false),
    ];
    let outer = Processor::process(&vault_id, &outer_accounts, &deposit_bytes(100)).unwrap();
    assert!(outer.writes.is_empty());
    assert_eq!(outer.actions.len(), 1);
    let (forwarded, vault_signed) = match &outer.actions[0] {
        Action::InvokeStrategy { instruction, vault_signed } => (instruction.clone(), *vault_signed),
        other => panic!("expected a strategy invocation, got {:?}", other),
    };
    assert!(!vault_signed);
    assert_eq!(forwarded.program_id, vault_id);
    assert_eq!(
        VaultInstruction::unpack(&forwarded.data).unwrap(),
        VaultInstruction::Deposit { amount: 100, debug_crash: false }
    );

    // the host hands the inner call one account per forwarded meta
    let inner_accounts: Vec<Account> = vec![
        outer_accounts[0].clone(),
        outer_accounts[1].clone(),
        outer_accounts[2].clone(),
        outer_accounts[3].clone(),
        outer_accounts[6].clone(),
        outer_accounts[7].clone(),
        outer_accounts[8].clone(),
    ];
    for (i, meta) in forwarded.accounts.iter().enumerate() {
        assert_eq!(meta.address, inner_accounts[i].key);
    }
    let inner = Processor::process(&vault_id, &inner_accounts, &forwarded.data).unwrap();

    // depositing directly into the inner hodl vault computes the same
    // transfer
    let direct = Processor::process(
        &vault_id,
        &hodl_transfer_accounts(&vault_id, &token_program, 1000, &pda, 0),
        &deposit_bytes(100),
    )
    .unwrap();
    assert_eq!(inner.actions, direct.actions);
    assert_eq!(
        inner.actions,
        vec![Action::Transfer {
            token_program,
            source: addr(11),
            destination: addr(5),
            authority: addr(3),
            amount: 100,
            vault_signed: false,
        }]
    );
}

#[test]
fn wrapped_vault_withdraw_is_vault_signed() {
    let vault_id = addr(1);
    let token_program = addr(2);
    let outer_accounts = vec![
        account(token_program, addr(0), 0, vec![], false),
        account(addr(31), token_program, 1, encode_token_account(&addr(3), 100), false),
        account(addr(11), token_program, 1, encode_token_account(&addr(3), 900), false),
        account(addr(3), addr(0), 0, vec![], true),
        account(addr(14), vault_id, 1, wrapper_record(&vault_id).pack(), false),
        account(vault_id, addr(0), 0, vec![], false),
    ];
    let outer = Processor::process(&vault_id, &outer_accounts, &withdraw_bytes(100)).unwrap();
    let (forwarded, vault_signed) = match &outer.actions[0] {
        Action::InvokeStrategy { instruction, vault_signed } => (instruction.clone(), *vault_signed),
        other => panic!("expected a strategy invocation, got {:?}", other),
    };
    assert!(vault_signed);
    assert_eq!(
        VaultInstruction::unpack(&forwarded.data).unwrap(),
        VaultInstruction::Withdraw { amount: 100, debug_crash: false }
    );
    // the source authority is forwarded as the first extra meta, signing
    assert_eq!(forwarded.accounts[3].address, addr(3));
    assert!(forwarded.accounts[3].is_signer);
}

#[test]
fn wrapped_vault_estimate_recurses_transparently() {
    // estimating through the wrapper forwards the estimate call with the
    // same scratch output; the inner hodl vault writes its held amount
    let vault_id = addr(1);
    let token_program = addr(2);
    let pda = derived_authority(&vault_id);

    let outer_accounts = vec![
        account(vault_id, addr(0), 0, vec![], false),
        account(addr(20), vault_id, 0, vec![0u8; 8], false),
        account(addr(14), vault_id, 1, wrapper_record(&vault_id).pack(), false),
        account(vault_id, addr(0), 0, vec![], false),
        // forwarded to the inner vault: its storage and held-balance account
        account(addr(4), vault_id, 1, hodl_record(&vault_id).pack(), false),
        account(addr(5), token_program, 1, encode_token_account(&pda, 100), false),
    ];
    let outer = Processor::process(&vault_id, &outer_accounts, &[3]).unwrap();
    assert!(outer.writes.is_empty());
    let forwarded = match &outer.actions[0] {
        Action::InvokeStrategy { instruction, vault_signed: false } => instruction.clone(),
        other => panic!("expected an unsigned strategy invocation, got {:?}", other),
    };
    assert_eq!(forwarded.program_id, vault_id);
    assert_eq!(forwarded.data, vec![3u8]);
    // the same scratch output account is handed through
    assert_eq!(forwarded.accounts[1].address, addr(20));

    let mut inner_accounts: Vec<Account> = vec![
        outer_accounts[0].clone(),
        outer_accounts[1].clone(),
        outer_accounts[4].clone(),
        outer_accounts[5].clone(),
    ];
    let inner = Processor::process(&vault_id, &inner_accounts, &forwarded.data).unwrap();
    apply_data_writes(&mut inner_accounts, &inner);
    assert_eq!(inner_accounts[1].data, 100u64.to_le_bytes().to_vec());

    // querying the inner vault directly yields the same value
    let direct = Processor::process(
        &vault_id,
        &hodl_estimate_accounts(&vault_id, &pda, 100),
        &[3],
    )
    .unwrap();
    assert_eq!(direct.writes, inner.writes);
}

#[test]
fn estimate_requires_scratch_space() {
    let vault_id = addr(1);
    let pda = derived_authority(&vault_id);
    let mut accounts = hodl_estimate_accounts(&vault_id, &pda, 5);
    accounts[1].data = vec![0u8; 7];
    assert_eq!(
        Processor::process(&vault_id, &accounts, &[3]),
        Err(VaultError::InsufficientSpace)
    );
}

#[test]
fn estimate_requires_initialized_storage() {
    let vault_id = addr(1);
    let pda = derived_authority(&vault_id);
    let mut accounts = hodl_estimate_accounts(&vault_id, &pda, 5);
    accounts[2].data = vec![0u8; VAULT_LEN];
    assert_eq!(
        Processor::process(&vault_id, &accounts, &[3]),
        Err(VaultError::InvalidInstruction)
    );
}

#[test]
fn write_data_overwrites_leading_bytes() {
    let vault_id = addr(1);
    let mut accounts = vec![account(addr(20), vault_id, 0, vec![9u8; 6], false)];
    let mut data = vec![4u8];
    data.extend_from_slice(&[1, 2, 3, 4]);
    let effects = Processor::process(&vault_id, &accounts, &data).unwrap();
    apply_data_writes(&mut accounts, &effects);
    assert_eq!(accounts[0].data, vec![1, 2, 3, 4, 9, 9]);
}

#[test]
fn write_data_requires_capacity() {
    let vault_id = addr(1);
    let accounts = vec![account(addr(20), vault_id, 0, vec![0u8; 3], false)];
    let mut data = vec![4u8];
    data.extend_from_slice(&[1, 2, 3, 4]);
    assert_eq!(
        Processor::process(&vault_id, &accounts, &data),
        Err(VaultError::InsufficientSpace)
    );
}

#[test]
fn encoded_token_account_matches_custody_layout() {
    // the library's encoding of a token account equals what the custody
    // crate itself packs for the same owner and amount
    let owner = addr(42);
    let spl_account = spl_token::state::Account {
        mint: spl_token::solana_program::pubkey::Pubkey::new_from_array([0u8; 32]),
        owner: spl_token::solana_program::pubkey::Pubkey::new_from_array(pubkey_of(&owner).to_bytes()),
        amount: 987,
        delegate: spl_token::solana_program::program_option::COption::None,
        state: spl_token::state::AccountState::Initialized,
        is_native: spl_token::solana_program::program_option::COption::None,
        delegated_amount: 0,
        close_authority: spl_token::solana_program::program_option::COption::None,
    };
    let mut packed = vec![0u8; 165];
    <spl_token::state::Account as spl_token::solana_program::program_pack::Pack>::pack(
        spl_account,
        &mut packed,
    )
    .unwrap();
    assert_eq!(packed, encode_token_account(&owner, 987));
}
