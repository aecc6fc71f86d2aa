//! A model of the asset-custody subsystem at its interface boundary: what
//! a balance ledger records per token account, what a custody transfer
//! does to it, and the encoding of a token-account record as the custody
//! subsystem stores it.

use vstd::prelude::*;
use vstd::bytes::{lemma_auto_spec_u64_to_from_le_bytes, spec_u64_to_le_bytes, u64_to_le_bytes};
use crate::addr::{lemma_address_round_trip, spec_address_bytes, Address};
use crate::effects::ActionView;
use crate::host::{spec_token_account, TokenAccountInfo};

verus! {

/// What the custody ledger records for one token account: the authority
/// that may move its balance, and the balance itself.
#[derive(Clone, Copy, PartialEq, Eq, Structural, Debug)]
pub struct TokenBalance {
    pub owner: Address,
    pub amount: u64,
}

/// The ledger after a custody transfer of `amount` from `source` to
/// `destination` authorized by `authority`, or `None` where the custody
/// subsystem would refuse it: an account is missing, source and
/// destination coincide, the authority does not own the source, the
/// source balance is too small, or the destination would overflow.
pub open spec fn spec_ledger_transfer(
    ledger: Map<Address, TokenBalance>,
    source: Address,
    destination: Address,
    authority: Address,
    amount: u64,
) -> Option<Map<Address, TokenBalance>> {
    if ledger.dom().contains(source) && ledger.dom().contains(destination) && source
        != destination && ledger[source].owner == authority && ledger[source].amount >= amount
        && ledger[destination].amount + amount <= u64::MAX {
        Some(
            ledger.insert(
                source,
                TokenBalance {
                    owner: ledger[source].owner,
                    amount: (ledger[source].amount - amount) as u64,
                },
            ).insert(
                destination,
                TokenBalance {
                    owner: ledger[destination].owner,
                    amount: (ledger[destination].amount + amount) as u64,
                },
            ),
        )
    } else {
        None
    }
}

/// The ledger after a transfer action computed by the engine; only
/// transfer actions touch balances.
pub open spec fn spec_apply_transfer_action(
    ledger: Map<Address, TokenBalance>,
    action: ActionView,
) -> Option<Map<Address, TokenBalance>>
    recommends
        action is Transfer,
{
    match action {
        ActionView::Transfer { source, destination, authority, amount, .. } => spec_ledger_transfer(
            ledger,
            source,
            destination,
            authority,
            amount,
        ),
        _ => None,
    }
}

/// Transferring an amount and then transferring it back restores the
/// ledger exactly, and the reverse transfer is always accepted when the
/// reverse authority owns the destination.
pub proof fn lemma_ledger_transfer_round_trip(
    ledger: Map<Address, TokenBalance>,
    mid: Map<Address, TokenBalance>,
    source: Address,
    destination: Address,
    authority: Address,
    reverse_authority: Address,
    amount: u64,
)
    requires
        spec_ledger_transfer(ledger, source, destination, authority, amount) == Some(mid),
        ledger[destination].owner == reverse_authority,
    ensures
        (spec_ledger_transfer(mid, destination, source, reverse_authority, amount) matches Some(
            back,
        ) && back =~= ledger),
{
    let back = spec_ledger_transfer(mid, destination, source, reverse_authority, amount)->0;
    assert(back =~= ledger);
}

/// Zero-filled bytes, the unset fields of a fresh token-account record.
pub open spec fn spec_zero_bytes(n: int) -> Seq<u8> {
    Seq::new(n as nat, |i: int| 0u8)
}

/// The 165-byte token-account record the custody subsystem stores for an
/// initialized account of `owner` holding `amount`, with no delegate, no
/// native reserve and no close authority, under the zero mint.
pub open spec fn spec_encode_token_account(owner: Address, amount: u64) -> Seq<u8> {
    spec_zero_bytes(32) + spec_address_bytes(owner) + spec_u64_to_le_bytes(amount)
        + spec_zero_bytes(36) + seq![1u8] + spec_zero_bytes(12) + spec_zero_bytes(8)
        + spec_zero_bytes(36)
}

/// The encoding parses back to exactly the owner, the amount, and the
/// initialized state.
pub proof fn lemma_encode_token_account(owner: Address, amount: u64)
    ensures
        spec_encode_token_account(owner, amount).len() == 165,
        spec_token_account(spec_encode_token_account(owner, amount)) == Some(
            TokenAccountInfo { owner, amount, initialized: true },
        ),
{
    lemma_auto_spec_u64_to_from_le_bytes();
    lemma_address_round_trip(owner);
    let s = spec_encode_token_account(owner, amount);
    assert(s.subrange(32, 64) =~= spec_address_bytes(owner));
    assert(s.subrange(64, 72) =~= spec_u64_to_le_bytes(amount));
    assert(s[72] == 0 && s[73] == 0 && s[74] == 0 && s[75] == 0);
    assert(s[108] == 1);
    assert(s[109] == 0 && s[110] == 0 && s[111] == 0 && s[112] == 0);
    assert(s[129] == 0 && s[130] == 0 && s[131] == 0 && s[132] == 0);
}

/// Appends `n` zero bytes to `out`.
fn push_zero_bytes(out: &mut Vec<u8>, n: usize)
    ensures
        final(out)@ == old(out)@ + spec_zero_bytes(n as int),
{
    let mut i: usize = 0;
    while i < n
        invariant
            i <= n,
            out@ == old(out)@ + spec_zero_bytes(i as int),
        decreases n - i,
    {
        out.push(0);
        proof {
            assert(out@ =~= old(out)@ + spec_zero_bytes(i + 1));
        }
        i = i + 1;
    }
}

/// Builds the 165-byte record of an initialized token account of `owner`
/// holding `amount`, as the custody subsystem would store it.
pub fn encode_token_account(owner: &Address, amount: u64) -> (r: Vec<u8>)
    ensures
        r@ == spec_encode_token_account(*owner, amount),
        r@.len() == 165,
        spec_token_account(r@) == Some(
            TokenAccountInfo { owner: *owner, amount, initialized: true },
        ),
{
    proof {
        lemma_encode_token_account(*owner, amount);
    }
    let mut out: Vec<u8> = Vec::new();
    push_zero_bytes(&mut out, 32);
    owner.write_bytes(&mut out);
    let mut le = u64_to_le_bytes(amount);
    out.append(&mut le);
    push_zero_bytes(&mut out, 36);
    out.push(1);
    push_zero_bytes(&mut out, 12);
    push_zero_bytes(&mut out, 8);
    push_zero_bytes(&mut out, 36);
    proof {
        assert(out@ =~= spec_encode_token_account(*owner, amount));
    }
    out
}

} // verus!
