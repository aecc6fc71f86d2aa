//! A composable value-custody vault.
//!
//! A vault accepts a base asset and either holds it directly ("hodl" mode)
//! or forwards it to a pluggable strategy program implementing the same
//! deposit / withdraw / estimate-value protocol, so vaults can wrap other
//! vaults.  The library decodes instruction bytes into typed operations,
//! validates the caller-supplied account set, and computes the exact data
//! writes and cross-program calls each operation performs.

pub mod addr;
pub mod accounts;
pub mod error;
pub mod state;
pub mod instruction;
pub mod strategy;
pub mod host;
pub mod effects;
pub mod processor;
pub mod ledger;
pub mod laws;

pub use addr::Address;
