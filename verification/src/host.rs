//! The trusted boundary to the host sandbox and the asset-custody
//! subsystem: the program-derived vault authority, the rent-exemption
//! minimum, and the stored state of a custody token account.
//!
//! Everything else the library does is computed and verified over plain
//! values; only the three calls below are taken on the outside crates'
//! word.

use vstd::prelude::*;
use vstd::bytes::spec_u64_from_le_bytes;
use crate::addr::{lemma_address_round_trip, spec_address_bytes, spec_address_from_bytes, Address};

verus! {

/// The vault signing authority derived from a program identity and the
/// fixed seed, or `None` in the statistically improbable event that no
/// bump seed yields a derived address.  Deterministic: the same program
/// identity always yields the same authority.
pub uninterp spec fn vault_authority_of(program_id: Address) -> Option<Address>;

/// The rent-exemption minimum balance that a rent sysvar record demands of
/// an account with `data_len` bytes of storage, or `None` where the length
/// or the rate is out of the schedule's range.
pub uninterp spec fn rent_minimum_of(rent_data: Seq<u8>, data_len: u64) -> Option<u64>;

/// The identity of the host's rent sysvar account, whose stored bytes are
/// the rent schedule.
pub open spec fn spec_rent_sysvar_address() -> Address {
    Address {
        limb0: 0x515c2c1917d5a706u64,
        limb1: 0x7ff14a3d4cc98c21u64,
        limb2: 0x44fda19b08eeda58u64,
        limb3: 0x8ad9dbe3u64,
    }
}

/// The identity of the host's rent sysvar account.
pub fn rent_sysvar_address() -> (r: Address)
    ensures
        r == spec_rent_sysvar_address(),
{
    Address {
        limb0: 0x515c2c1917d5a706,
        limb1: 0x7ff14a3d4cc98c21,
        limb2: 0x44fda19b08eeda58,
        limb3: 0x8ad9dbe3,
    }
}

/// Whether a rent sysvar record carries one of the two exemption-threshold
/// encodings the schedule computes without floating point: bytes 8..16
/// hold the 8-byte encoding of 1.0 or of 2.0.  Every threshold the host
/// has ever set is one of the two; on any other the schedule's arithmetic
/// is not total, so such a record is refused before the schedule is asked.
pub open spec fn spec_rent_record_checked(s: Seq<u8>) -> bool {
    s.len() >= 17 && s[8] == 0 && s[9] == 0 && s[10] == 0 && s[11] == 0 && s[12] == 0 && s[13]
        == 0 && ((s[14] == 240 && s[15] == 63) || (s[14] == 0 && s[15] == 64))
}

/// Checks a rent sysvar record for the supported exemption thresholds.
pub(crate) fn rent_record_checked(data: &[u8]) -> (r: bool)
    ensures
        r == spec_rent_record_checked(data@),
{
    if data.len() < 17 {
        return false;
    }
    let mut zeros = true;
    let mut i: usize = 8;
    while i < 14
        invariant
            8 <= i <= 14,
            data@.len() >= 17,
            zeros == (forall|j: int| 8 <= j < i ==> data@[j] == 0),
        decreases 14 - i,
    {
        if *vstd::slice::slice_index_get(data, i) != 0 {
            zeros = false;
        }
        i = i + 1;
    }
    let b14 = *vstd::slice::slice_index_get(data, 14);
    let b15 = *vstd::slice::slice_index_get(data, 15);
    zeros && ((b14 == 240 && b15 == 63) || (b14 == 0 && b15 == 64))
}

/// What the asset-custody subsystem records in a token account, as far as
/// the vault reads it: the authority that owns the balance, the balance
/// itself, and whether the account has been initialized.
#[derive(Clone, Copy, PartialEq, Eq, Structural, Debug)]
pub struct TokenAccountInfo {
    pub owner: Address,
    pub amount: u64,
    pub initialized: bool,
}

/// Whether the four bytes at `i` are a valid optional-field tag of the
/// token-account layout: little-endian 0 (absent) or 1 (present).
pub open spec fn spec_coption_tag_ok(s: Seq<u8>, i: int) -> bool {
    (s[i] == 0 || s[i] == 1) && s[i + 1] == 0 && s[i + 2] == 0 && s[i + 3] == 0
}

/// Whether `s` is a well-formed 165-byte token-account record: the
/// optional-field tags at 72 (delegate), 109 (native reserve) and 129
/// (close authority) are valid and the state byte at 108 is a known state.
pub open spec fn spec_token_account_parse_ok(s: Seq<u8>) -> bool {
    s.len() == 165 && spec_coption_tag_ok(s, 72) && s[108] <= 2 && spec_coption_tag_ok(s, 109)
        && spec_coption_tag_ok(s, 129)
}

/// The owner, amount and state stored in a token-account record: the owner
/// at bytes 32..64, the amount at 64..72 little-endian, the state byte at
/// 108 (zero meaning uninitialized).
pub open spec fn spec_token_account(s: Seq<u8>) -> Option<TokenAccountInfo> {
    if spec_token_account_parse_ok(s) {
        Some(
            TokenAccountInfo {
                owner: spec_address_from_bytes(s.subrange(32, 64)),
                amount: spec_u64_from_le_bytes(s.subrange(64, 72)),
                initialized: s[108] != 0,
            },
        )
    } else {
        None
    }
}

/// Relies on `Pubkey::try_find_program_address` with the fixed seed
/// `b"vault"`: the derived authority is a function of the program identity
/// alone, and is the address under which the host lets this program
/// countersign.  The result is the authority's 32-byte encoding.
#[verifier::external_body]
fn find_vault_authority_raw(program_id_bytes: &[u8]) -> (r: Option<Vec<u8>>)
    requires
        program_id_bytes@.len() == 32,
    ensures
        (match vault_authority_of(spec_address_from_bytes(program_id_bytes@)) {
            Some(a) => r matches Some(v) && v@ == spec_address_bytes(a),
            None => r is None,
        }),
{
    let pid = solana_program::pubkey::Pubkey::try_from(program_id_bytes).ok()?;
    let (pda, _) = solana_program::pubkey::Pubkey::try_find_program_address(&[b"vault"], &pid)?;
    Some(pda.to_bytes().to_vec())
}

/// The vault signing authority derived from `program_id`, decoded back
/// from the host's byte answer.
pub(crate) fn derive_vault_authority(program_id: &Address) -> (r: Option<Address>)
    ensures
        r == vault_authority_of(*program_id),
{
    let mut pid_bytes: Vec<u8> = Vec::new();
    program_id.write_bytes(&mut pid_bytes);
    proof {
        lemma_address_round_trip(*program_id);
    }
    match find_vault_authority_raw(pid_bytes.as_slice()) {
        None => None,
        Some(v) => {
            proof {
                let named = vault_authority_of(*program_id)->0;
                lemma_address_round_trip(named);
            }
            let a = Address::read_bytes(v.as_slice(), 0);
            proof {
                let named = vault_authority_of(*program_id)->0;
                assert(v@.subrange(0, 32) =~= spec_address_bytes(named));
            }
            Some(a)
        },
    }
}

/// Relies on bincode deserialization of the rent sysvar record and on
/// `Rent::try_minimum_balance`: the minimum is a function of the record
/// bytes and the account's data length alone.  The domain is the records
/// [`spec_rent_record_checked`] admits: on those the schedule validates
/// its rate and length bounds and returns, instead of panicking, `None`
/// when either is out of range.
#[verifier::external_body]
pub(crate) fn rent_minimum_balance(rent_data: &[u8], data_len: u64) -> (r: Option<u64>)
    requires
        spec_rent_record_checked(rent_data@),
    ensures
        r == rent_minimum_of(rent_data@, data_len),
{
    let rent: solana_program::rent::Rent = bincode::deserialize(rent_data).ok()?;
    rent.try_minimum_balance(data_len as usize)
}

/// Relies on `spl_token::state::Account::unpack_unchecked`: it reads
/// exactly the 165-byte layout that [`spec_token_account`] states, and
/// rejects exactly the records that fail [`spec_token_account_parse_ok`].
/// The result carries the owner's 32-byte encoding, the amount, and
/// whether the account state is initialized.
#[verifier::external_body]
fn read_token_account_raw(data: &[u8]) -> (r: Option<(Vec<u8>, u64, bool)>)
    ensures
        (match spec_token_account(data@) {
            Some(info) => r matches Some(t) && t.0@ == spec_address_bytes(info.owner) && t.1
                == info.amount && t.2 == info.initialized,
            None => r is None,
        }),
{
    let acct = <spl_token::state::Account as solana_program::program_pack::Pack>::unpack_unchecked(
        data,
    ).ok()?;
    let initialized = acct.state != spl_token::state::AccountState::Uninitialized;
    Some((acct.owner.to_bytes().to_vec(), acct.amount, initialized))
}

/// The owner, amount and state stored in a token-account record, decoded
/// back from the custody subsystem's byte answer.
pub(crate) fn read_token_account(data: &[u8]) -> (r: Option<TokenAccountInfo>)
    ensures
        r == spec_token_account(data@),
{
    match read_token_account_raw(data) {
        None => None,
        Some(t) => {
            let (owner_bytes, amount, initialized) = t;
            proof {
                let info = spec_token_account(data@)->0;
                lemma_address_round_trip(info.owner);
            }
            let owner = Address::read_bytes(owner_bytes.as_slice(), 0);
            proof {
                let info = spec_token_account(data@)->0;
                assert(owner_bytes@.subrange(0, 32) =~= spec_address_bytes(info.owner));
            }
            Some(TokenAccountInfo { owner, amount, initialized })
        },
    }
}

} // verus!
