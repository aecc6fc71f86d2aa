//! The wire codec, the strategy codec and the storage record, on concrete
//! bytes.

use vault::addr::Address;
use vault::error::{StrategyError, VaultError};
use vault::instruction::VaultInstruction;
use vault::state::{Vault, VAULT_LEN};
use vault::strategy::StrategyInstruction;

fn addr(n: u64) -> Address {
    Address { limb0: n, limb1: n + 1, limb2: n + 2, limb3: n + 3 }
}

#[test]
fn unpack_initialize() {
    let ix = VaultInstruction::unpack(&[0, 1, 7, 8, 9]).unwrap();
    assert_eq!(
        ix,
        VaultInstruction::InitializeVault {
            strategy_program_deposit_instruction_id: 7,
            strategy_program_withdraw_instruction_id: 8,
            strategy_program_estimate_instruction_id: 9,
            hodl: true,
            debug_crash: false,
        }
    );
    // any flag byte other than 1 means no direct custody
    let ix = VaultInstruction::unpack(&[0, 2, 7, 8, 9]).unwrap();
    assert!(matches!(ix, VaultInstruction::InitializeVault { hodl: false, .. }));
}

#[test]
fn unpack_deposit_and_withdraw() {
    let mut buf = vec![1u8];
    buf.extend_from_slice(&100u64.to_le_bytes());
    assert_eq!(
        VaultInstruction::unpack(&buf).unwrap(),
        VaultInstruction::Deposit { amount: 100, debug_crash: false }
    );
    buf[0] = 2;
    assert_eq!(
        VaultInstruction::unpack(&buf).unwrap(),
        VaultInstruction::Withdraw { amount: 100, debug_crash: false }
    );
    // trailing bytes beyond the fixed field are ignored
    buf.push(0xff);
    assert_eq!(
        VaultInstruction::unpack(&buf).unwrap(),
        VaultInstruction::Withdraw { amount: 100, debug_crash: false }
    );
}

#[test]
fn unpack_estimate_and_write_data() {
    assert_eq!(
        VaultInstruction::unpack(&[3]).unwrap(),
        VaultInstruction::EstimateValue { debug_crash: false }
    );
    assert_eq!(
        VaultInstruction::unpack(&[4, 1, 2, 3]).unwrap(),
        VaultInstruction::WriteData { debug_crash: false }
    );
}

#[test]
fn unpack_rejects_bad_input() {
    assert_eq!(VaultInstruction::unpack(&[]), Err(VaultError::InvalidInstruction));
    assert_eq!(VaultInstruction::unpack(&[5]), Err(VaultError::InvalidInstruction));
    assert_eq!(VaultInstruction::unpack(&[200]), Err(VaultError::InvalidInstruction));
    // truncated fixed-width fields
    assert_eq!(VaultInstruction::unpack(&[0, 1, 7]), Err(VaultError::InvalidInstruction));
    assert_eq!(VaultInstruction::unpack(&[1, 1, 2, 3]), Err(VaultError::InvalidInstruction));
}

#[test]
fn unpack_debug_flagged_deposit() {
    // tag 65 selects the deposit opcode with the forced-failure flag
    let mut buf = vec![65u8];
    buf.extend_from_slice(&100u64.to_le_bytes());
    assert_eq!(
        VaultInstruction::unpack(&buf).unwrap(),
        VaultInstruction::Deposit { amount: 100, debug_crash: true }
    );
}

#[test]
fn pack_exact_bytes() {
    let mut expected = vec![1u8];
    expected.extend_from_slice(&9000u64.to_le_bytes());
    assert_eq!(
        (VaultInstruction::Deposit { amount: 9000, debug_crash: false }).pack(),
        expected
    );
    assert_eq!(
        (VaultInstruction::InitializeVault {
            strategy_program_deposit_instruction_id: 7,
            strategy_program_withdraw_instruction_id: 8,
            strategy_program_estimate_instruction_id: 9,
            hodl: true,
            debug_crash: false,
        })
            .pack(),
        vec![0, 1, 7, 8, 9]
    );
    assert_eq!((VaultInstruction::EstimateValue { debug_crash: true }).pack(), vec![67]);
    assert_eq!((VaultInstruction::WriteData { debug_crash: false }).pack(), vec![4]);
}

#[test]
fn pack_unpack_round_trip() {
    let cases = vec![
        VaultInstruction::InitializeVault {
            strategy_program_deposit_instruction_id: 1,
            strategy_program_withdraw_instruction_id: 2,
            strategy_program_estimate_instruction_id: 3,
            hodl: false,
            debug_crash: true,
        },
        VaultInstruction::Deposit { amount: u64::MAX, debug_crash: false },
        VaultInstruction::Withdraw { amount: 0, debug_crash: true },
        VaultInstruction::EstimateValue { debug_crash: false },
        VaultInstruction::WriteData { debug_crash: true },
    ];
    for ix in cases {
        assert_eq!(VaultInstruction::unpack(&ix.pack()).unwrap(), ix);
    }
}

#[test]
fn strategy_pack_unpack() {
    let deposit = StrategyInstruction::Deposit { amount: 123 };
    let packed = deposit.pack(0);
    let mut expected = vec![0u8];
    expected.extend_from_slice(&123u64.to_le_bytes());
    assert_eq!(packed, expected);
    assert_eq!(StrategyInstruction::unpack(&packed, 0).unwrap(), deposit);

    let withdraw = StrategyInstruction::Withdraw { amount: 9 };
    assert_eq!(
        StrategyInstruction::unpack(&withdraw.pack(1), 1).unwrap(),
        withdraw
    );

    // the estimate selector ignores everything after the opcode byte
    let estimate = StrategyInstruction::EstimateValue {};
    assert_eq!(estimate.pack(2), vec![2]);
    assert_eq!(StrategyInstruction::unpack(&[99], 2).unwrap(), estimate);
}

#[test]
fn strategy_unpack_rejects_bad_input() {
    assert_eq!(
        StrategyInstruction::unpack(&[], 0),
        Err(StrategyError::InvalidInstruction)
    );
    assert_eq!(
        StrategyInstruction::unpack(&[0, 1, 2], 0),
        Err(StrategyError::InvalidInstruction)
    );
    // unrecognized selector
    let mut buf = vec![9u8];
    buf.extend_from_slice(&5u64.to_le_bytes());
    assert_eq!(
        StrategyInstruction::unpack(&buf, 9),
        Err(StrategyError::InvalidInstruction)
    );
}

#[test]
fn vault_record_round_trip() {
    let record = Vault {
        is_initialized: true,
        hodl: true,
        vault_token_account: addr(10),
        llx_token_mint_id: addr(20),
        strategy_program_id: addr(30),
        strategy_program_deposit_instruction_id: 1,
        strategy_program_withdraw_instruction_id: 2,
        strategy_program_estimate_instruction_id: 3,
        last_estimated_value: 777,
    };
    let packed = record.pack();
    assert_eq!(packed.len(), VAULT_LEN);
    assert_eq!(Vault::unpack(&packed).unwrap(), record);
}

#[test]
fn vault_record_zeroed_is_uninitialized() {
    let zeroed = vec![0u8; VAULT_LEN];
    let record = Vault::unpack(&zeroed).unwrap();
    assert!(!record.is_initialized);
    assert!(!record.hodl);
    assert_eq!(record.last_estimated_value, 0);
}

#[test]
fn vault_record_rejects_bad_layout() {
    assert!(Vault::unpack(&vec![0u8; VAULT_LEN - 1]).is_none());
    assert!(Vault::unpack(&vec![0u8; VAULT_LEN + 1]).is_none());
    let mut bad_flag = vec![0u8; VAULT_LEN];
    bad_flag[0] = 2;
    assert!(Vault::unpack(&bad_flag).is_none());
}

#[test]
fn error_codes_are_distinct() {
    let all = vec![
        VaultError::InvalidInstruction,
        VaultError::MissingSignature,
        VaultError::WrongOwner,
        VaultError::NotRentExempt,
        VaultError::AlreadyInitialized,
        VaultError::AccountInconsistency,
        VaultError::InsufficientSpace,
        VaultError::ForcedCrash,
        VaultError::NotEnoughAccounts,
        VaultError::InvalidAccountData,
        VaultError::AuthorityUnavailable,
    ];
    for (i, a) in all.iter().enumerate() {
        for (j, b) in all.iter().enumerate() {
            assert_eq!(i == j, a.code() == b.code());
        }
    }
    assert_eq!(StrategyError::InvalidInstruction.code(), 0);
}
