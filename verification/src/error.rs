//! Errors raised while validating and executing vault operations.

use vstd::prelude::*;

verus! {

/// Why a vault operation was rejected.  Every failure aborts the whole
/// operation before any of its effects are carried out.
#[derive(Clone, Copy, PartialEq, Eq, Structural, Debug)]
pub enum VaultError {
    /// Malformed or unrecognized opcode or payload, an unconfigured storage
    /// record, or a strategy program that does not match the recorded one.
    InvalidInstruction,
    /// The caller-designated initializer did not sign the transaction.
    MissingSignature,
    /// An asset account is not owned by the asset-custody program.
    WrongOwner,
    /// The storage account does not meet the rent-exemption minimum.
    NotRentExempt,
    /// The storage record was already populated by an earlier initialization.
    AlreadyInitialized,
    /// The held-balance account's recorded owner is not the vault's derived
    /// authority at transfer time.
    AccountInconsistency,
    /// A scratch write larger than the target account's allocated storage.
    InsufficientSpace,
    /// Deliberate failure requested by the debug flag in the instruction tag.
    ForcedCrash,
    /// The instruction supplied fewer accounts than the operation needs.
    NotEnoughAccounts,
    /// An account's stored bytes do not form a record of the expected
    /// layout, or the account standing in the rent slot is not the genuine
    /// rent sysvar.
    InvalidAccountData,
    /// No program-derived authority exists for the vault program's identity.
    AuthorityUnavailable,
}

impl VaultError {
    /// The numeric code under which the error is reported to the host,
    /// one distinct value per variant.
    pub fn code(&self) -> (r: u32)
        ensures
            r == spec_error_code(*self),
    {
        match self {
            VaultError::InvalidInstruction => 0,
            VaultError::MissingSignature => 1,
            VaultError::WrongOwner => 2,
            VaultError::NotRentExempt => 3,
            VaultError::AlreadyInitialized => 4,
            VaultError::AccountInconsistency => 5,
            VaultError::InsufficientSpace => 6,
            VaultError::ForcedCrash => 7,
            VaultError::NotEnoughAccounts => 8,
            VaultError::InvalidAccountData => 9,
            VaultError::AuthorityUnavailable => 10,
        }
    }
}

pub open spec fn spec_error_code(e: VaultError) -> u32 {
    match e {
        VaultError::InvalidInstruction => 0u32,
        VaultError::MissingSignature => 1u32,
        VaultError::WrongOwner => 2u32,
        VaultError::NotRentExempt => 3u32,
        VaultError::AlreadyInitialized => 4u32,
        VaultError::AccountInconsistency => 5u32,
        VaultError::InsufficientSpace => 6u32,
        VaultError::ForcedCrash => 7u32,
        VaultError::NotEnoughAccounts => 8u32,
        VaultError::InvalidAccountData => 9u32,
        VaultError::AuthorityUnavailable => 10u32,
    }
}

/// Errors of the shared strategy-protocol codec.
#[derive(Clone, Copy, PartialEq, Eq, Structural, Debug)]
pub enum StrategyError {
    /// Malformed or unrecognized strategy opcode or payload.
    InvalidInstruction,
}

impl StrategyError {
    /// The numeric code under which the error is reported to the host.
    pub fn code(&self) -> (r: u32)
        ensures
            r == 0u32,
    {
        match self {
            StrategyError::InvalidInstruction => 0,
        }
    }
}

} // verus!
