//! The vault storage record: the fixed-layout persisted state of one vault
//! instance.
//!
//! Layout, 109 bytes in all:
//! byte 0 `is_initialized` flag, byte 1 `hodl` flag, bytes 2..34 the
//! held-balance token account, 34..66 the derivative mint, 66..98 the
//! strategy program, 98..101 the strategy's three opcode bytes, and
//! 101..109 the cached last estimated value, little-endian.

use vstd::prelude::*;
use vstd::bytes::{
    lemma_auto_spec_u64_to_from_le_bytes, spec_u64_from_le_bytes, spec_u64_to_le_bytes,
    u64_from_le_bytes, u64_to_le_bytes,
};
use vstd::slice::slice_subrange;
use crate::addr::{
    lemma_address_round_trip, spec_address_bytes, spec_address_from_bytes, Address,
};

verus! {

/// The packed size of a vault storage record.
pub const VAULT_LEN: usize = 109;

/// The persisted state of one vault instance.
///
/// A record is either unconfigured (`is_initialized` false, as an all-zero
/// allocation decodes) or fully populated exactly once; `hodl` selects
/// whether the vault holds the base asset directly or delegates custody to
/// the recorded strategy program.
#[derive(Clone, Copy, PartialEq, Eq, Structural, Debug)]
pub struct Vault {
    pub is_initialized: bool,
    pub hodl: bool,
    pub vault_token_account: Address,
    pub llx_token_mint_id: Address,
    pub strategy_program_id: Address,
    pub strategy_program_deposit_instruction_id: u8,
    pub strategy_program_withdraw_instruction_id: u8,
    pub strategy_program_estimate_instruction_id: u8,
    pub last_estimated_value: u64,
}

pub open spec fn spec_bool_byte(b: bool) -> u8 {
    if b {
        1u8
    } else {
        0u8
    }
}

/// The 109-byte encoding of a record.
pub open spec fn spec_pack_vault(v: Vault) -> Seq<u8> {
    seq![spec_bool_byte(v.is_initialized), spec_bool_byte(v.hodl)]
        + spec_address_bytes(v.vault_token_account) + spec_address_bytes(v.llx_token_mint_id)
        + spec_address_bytes(v.strategy_program_id)
        + seq![
        v.strategy_program_deposit_instruction_id,
        v.strategy_program_withdraw_instruction_id,
        v.strategy_program_estimate_instruction_id,
    ] + spec_u64_to_le_bytes(v.last_estimated_value)
}

/// The record encoded by `s`, or `None` where `s` is not 109 bytes long or
/// either flag byte is neither 0 nor 1.
pub open spec fn spec_unpack_vault(s: Seq<u8>) -> Option<Vault> {
    if s.len() == VAULT_LEN && s[0] <= 1 && s[1] <= 1 {
        Some(
            Vault {
                is_initialized: s[0] == 1,
                hodl: s[1] == 1,
                vault_token_account: spec_address_from_bytes(s.subrange(2, 34)),
                llx_token_mint_id: spec_address_from_bytes(s.subrange(34, 66)),
                strategy_program_id: spec_address_from_bytes(s.subrange(66, 98)),
                strategy_program_deposit_instruction_id: s[98],
                strategy_program_withdraw_instruction_id: s[99],
                strategy_program_estimate_instruction_id: s[100],
                last_estimated_value: spec_u64_from_le_bytes(s.subrange(101, 109)),
            },
        )
    } else {
        None
    }
}

/// Packing a record always yields 109 bytes.
pub proof fn lemma_pack_vault_len(v: Vault)
    ensures
        spec_pack_vault(v).len() == VAULT_LEN,
{
    lemma_auto_spec_u64_to_from_le_bytes();
}

/// Packing a record and unpacking the bytes yields the record back.
pub proof fn lemma_vault_round_trip(v: Vault)
    ensures
        spec_unpack_vault(spec_pack_vault(v)) == Some(v),
{
    lemma_auto_spec_u64_to_from_le_bytes();
    lemma_address_round_trip(v.vault_token_account);
    lemma_address_round_trip(v.llx_token_mint_id);
    lemma_address_round_trip(v.strategy_program_id);
    let s = spec_pack_vault(v);
    assert(s.subrange(2, 34) =~= spec_address_bytes(v.vault_token_account));
    assert(s.subrange(34, 66) =~= spec_address_bytes(v.llx_token_mint_id));
    assert(s.subrange(66, 98) =~= spec_address_bytes(v.strategy_program_id));
    assert(s.subrange(101, 109) =~= spec_u64_to_le_bytes(v.last_estimated_value));
}

impl Vault {
    /// Packs the record into its 109-byte encoding.
    pub fn pack(&self) -> (r: Vec<u8>)
        ensures
            r@ == spec_pack_vault(*self),
            r@.len() == VAULT_LEN,
    {
        proof {
            lemma_pack_vault_len(*self);
        }
        let mut out: Vec<u8> = Vec::new();
        out.push(if self.is_initialized {
            1
        } else {
            0
        });
        out.push(if self.hodl {
            1
        } else {
            0
        });
        self.vault_token_account.write_bytes(&mut out);
        self.llx_token_mint_id.write_bytes(&mut out);
        self.strategy_program_id.write_bytes(&mut out);
        out.push(self.strategy_program_deposit_instruction_id);
        out.push(self.strategy_program_withdraw_instruction_id);
        out.push(self.strategy_program_estimate_instruction_id);
        let mut tail = u64_to_le_bytes(self.last_estimated_value);
        out.append(&mut tail);
        proof {
            assert(out@ =~= spec_pack_vault(*self));
        }
        out
    }

    /// Unpacks a record from raw account bytes; the layout is checked, the
    /// `is_initialized` flag deliberately is not.
    pub fn unpack(bytes: &[u8]) -> (r: Option<Vault>)
        ensures
            r == spec_unpack_vault(bytes@),
    {
        let n = bytes.len();
        if n != VAULT_LEN {
            return None;
        }
        let b0 = *vstd::slice::slice_index_get(bytes, 0);
        let b1 = *vstd::slice::slice_index_get(bytes, 1);
        if b0 > 1 || b1 > 1 {
            return None;
        }
        let v = Vault {
            is_initialized: b0 == 1,
            hodl: b1 == 1,
            vault_token_account: Address::read_bytes(bytes, 2),
            llx_token_mint_id: Address::read_bytes(bytes, 34),
            strategy_program_id: Address::read_bytes(bytes, 66),
            strategy_program_deposit_instruction_id: *vstd::slice::slice_index_get(bytes, 98),
            strategy_program_withdraw_instruction_id: *vstd::slice::slice_index_get(bytes, 99),
            strategy_program_estimate_instruction_id: *vstd::slice::slice_index_get(bytes, 100),
            last_estimated_value: u64_from_le_bytes(slice_subrange(bytes, 101, 109)),
        };
        Some(v)
    }
}

} // verus!
