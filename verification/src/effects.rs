//! What an accepted vault operation does: the data writes it performs on
//! the supplied accounts, and the calls it hands back to the host to
//! perform against the asset-custody subsystem or a child strategy.

use vstd::prelude::*;
use vstd::slice::slice_subrange;
use crate::accounts::{account_views, Account, AccountView, Instruction, InstructionView};
use crate::addr::Address;

verus! {

/// Which authority of a custody account is reassigned.
#[derive(Clone, Copy, PartialEq, Eq, Structural, Debug)]
pub enum AuthorityKind {
    /// The owner of a token account's balance.
    AccountOwner,
    /// The authority allowed to mint from a token mint.
    MintTokens,
}

/// One call the host is asked to perform on the vault's behalf.
#[derive(Clone, PartialEq, Eq, Debug)]
pub enum Action {
    /// A custody transfer of `amount` from `source` to `destination`,
    /// authorized by `authority`; `vault_signed` says whether the vault
    /// countersigns with its derived authority instead of a caller
    /// signature.
    Transfer {
        token_program: Address,
        source: Address,
        destination: Address,
        authority: Address,
        amount: u64,
        vault_signed: bool,
    },
    /// Reassignment of an account's `kind` authority from
    /// `current_authority` to `new_authority`, irreversible except by the
    /// new authority itself.
    SetAuthority {
        token_program: Address,
        account: Address,
        new_authority: Address,
        kind: AuthorityKind,
        current_authority: Address,
    },
    /// A call into the recorded strategy program; `vault_signed` says
    /// whether the vault countersigns with its derived authority.
    InvokeStrategy { instruction: Instruction, vault_signed: bool },
}

/// The mathematical value of an [`Action`].
#[verifier::ext_equal]
pub enum ActionView {
    Transfer {
        token_program: Address,
        source: Address,
        destination: Address,
        authority: Address,
        amount: u64,
        vault_signed: bool,
    },
    SetAuthority {
        token_program: Address,
        account: Address,
        new_authority: Address,
        kind: AuthorityKind,
        current_authority: Address,
    },
    InvokeStrategy { instruction: InstructionView, vault_signed: bool },
}

impl View for Action {
    type V = ActionView;

    open spec fn view(&self) -> ActionView {
        match *self {
            Action::Transfer {
                token_program,
                source,
                destination,
                authority,
                amount,
                vault_signed,
            } => ActionView::Transfer {
                token_program,
                source,
                destination,
                authority,
                amount,
                vault_signed,
            },
            Action::SetAuthority {
                token_program,
                account,
                new_authority,
                kind,
                current_authority,
            } => ActionView::SetAuthority {
                token_program,
                account,
                new_authority,
                kind,
                current_authority,
            },
            Action::InvokeStrategy { instruction, vault_signed } => ActionView::InvokeStrategy {
                instruction: instruction@,
                vault_signed,
            },
        }
    }
}

/// One overwrite of the leading bytes of a supplied account's storage.
#[derive(Clone, PartialEq, Eq, Debug)]
pub struct DataWrite {
    pub account_index: usize,
    pub data: Vec<u8>,
}

/// The mathematical value of a [`DataWrite`].
#[verifier::ext_equal]
pub struct DataWriteView {
    pub account_index: int,
    pub data: Seq<u8>,
}

impl View for DataWrite {
    type V = DataWriteView;

    open spec fn view(&self) -> DataWriteView {
        DataWriteView { account_index: self.account_index as int, data: self.data@ }
    }
}

/// Everything an accepted operation does, in order: first the data writes,
/// then the cross-program calls.
#[derive(Clone, PartialEq, Eq, Debug)]
pub struct Effects {
    pub writes: Vec<DataWrite>,
    pub actions: Vec<Action>,
}

/// The mathematical value of an [`Effects`].
#[verifier::ext_equal]
pub struct EffectsView {
    pub writes: Seq<DataWriteView>,
    pub actions: Seq<ActionView>,
}

impl View for Effects {
    type V = EffectsView;

    open spec fn view(&self) -> EffectsView {
        EffectsView {
            writes: self.writes@.map_values(|w: DataWrite| w@),
            actions: self.actions@.map_values(|a: Action| a@),
        }
    }
}

/// Whether every write addresses a supplied account and fits within its
/// allocated storage.
pub open spec fn spec_writes_ok(accounts: Seq<AccountView>, ws: Seq<DataWriteView>) -> bool {
    forall|i: int|
        0 <= i < ws.len() ==> {
            &&& 0 <= (#[trigger] ws[i]).account_index < accounts.len()
            &&& ws[i].data.len() <= accounts[ws[i].account_index].data.len()
        }
}

/// The account list after one write: the target account's leading bytes
/// are replaced by the payload, the rest of its storage is unchanged.
pub open spec fn spec_apply_write(accounts: Seq<AccountView>, w: DataWriteView) -> Seq<
    AccountView,
>
    recommends
        0 <= w.account_index < accounts.len(),
        w.data.len() <= accounts[w.account_index].data.len(),
{
    let a = accounts[w.account_index];
    accounts.update(
        w.account_index,
        AccountView {
            key: a.key,
            owner: a.owner,
            lamports: a.lamports,
            data: w.data + a.data.skip(w.data.len() as int),
            is_signer: a.is_signer,
            is_writable: a.is_writable,
        },
    )
}

/// The account list after a sequence of writes, applied in order.
pub open spec fn spec_apply_writes(accounts: Seq<AccountView>, ws: Seq<DataWriteView>) -> Seq<
    AccountView,
>
    decreases ws.len(),
{
    if ws.len() == 0 {
        accounts
    } else {
        spec_apply_writes(spec_apply_write(accounts, ws[0]), ws.skip(1))
    }
}

/// A write changes neither the length of any account's storage nor
/// anything but the target's data.
pub proof fn lemma_apply_write_shape(accounts: Seq<AccountView>, w: DataWriteView)
    requires
        0 <= w.account_index < accounts.len(),
        w.data.len() <= accounts[w.account_index].data.len(),
    ensures
        spec_apply_write(accounts, w).len() == accounts.len(),
        forall|i: int|
            0 <= i < accounts.len() ==> #[trigger] spec_apply_write(accounts, w)[i].data.len()
                == accounts[i].data.len(),
        forall|i: int|
            0 <= i < accounts.len() && i != w.account_index ==> #[trigger] spec_apply_write(
                accounts,
                w,
            )[i] == accounts[i],
{
}

/// Validity of writes survives dropping leading writes.
proof fn lemma_writes_ok_skip(accounts: Seq<AccountView>, ws: Seq<DataWriteView>, k: int)
    requires
        spec_writes_ok(accounts, ws),
        0 <= k <= ws.len(),
    ensures
        spec_writes_ok(accounts, ws.skip(k)),
{
    assert forall|j: int|
        0 <= j < ws.skip(k).len() implies {
        &&& 0 <= (#[trigger] ws.skip(k)[j]).account_index < accounts.len()
        &&& ws.skip(k)[j].data.len() <= accounts[ws.skip(k)[j].account_index].data.len()
    } by {
        assert(ws.skip(k)[j] == ws[k + j]);
    }
}

/// Validity of writes survives any change that keeps the account count and
/// every account's storage length.
proof fn lemma_writes_ok_preserved(
    before: Seq<AccountView>,
    after: Seq<AccountView>,
    ws: Seq<DataWriteView>,
)
    requires
        spec_writes_ok(before, ws),
        after.len() == before.len(),
        forall|k: int| 0 <= k < before.len() ==> (#[trigger] after[k]).data.len()
            == before[k].data.len(),
    ensures
        spec_writes_ok(after, ws),
{
    assert forall|j: int|
        0 <= j < ws.len() implies {
        &&& 0 <= (#[trigger] ws[j]).account_index < after.len()
        &&& ws[j].data.len() <= after[ws[j].account_index].data.len()
    } by {
        assert(after[ws[j].account_index].data.len() == before[ws[j].account_index].data.len());
    }
}

/// Applies the writes of an effects value to the supplied accounts.
pub fn apply_data_writes(accounts: &mut Vec<Account>, effects: &Effects)
    requires
        spec_writes_ok(account_views(old(accounts)@), effects@.writes),
    ensures
        account_views(final(accounts)@) == spec_apply_writes(
            account_views(old(accounts)@),
            effects@.writes,
        ),
{
    let n = effects.writes.len();
    let mut i: usize = 0;
    proof {
        assert(effects@.writes.skip(0) =~= effects@.writes);
    }
    while i < n
        invariant
            i <= n,
            n == effects@.writes.len(),
            accounts@.len() == old(accounts)@.len(),
            spec_writes_ok(account_views(accounts@), effects@.writes.skip(i as int)),
            spec_apply_writes(account_views(accounts@), effects@.writes.skip(i as int))
                == spec_apply_writes(account_views(old(accounts)@), effects@.writes),
        decreases n - i,
    {
        let ghost pre = account_views(accounts@);
        let ghost ws = effects@.writes;
        proof {
            assert(ws.skip(i as int)[0] == ws[i as int]);
        }
        let w = &effects.writes[i];
        let mut a = accounts.remove(w.account_index);
        let mut nd: Vec<u8> = Vec::new();
        nd.extend_from_slice(w.data.as_slice());
        let keep = slice_subrange(a.data.as_slice(), w.data.len(), a.data.len());
        nd.extend_from_slice(keep);
        a.data = nd;
        accounts.insert(w.account_index, a);
        proof {
            assert(account_views(accounts@) =~~= spec_apply_write(pre, ws[i as int]));
            lemma_apply_write_shape(pre, ws[i as int]);
            assert(ws.skip(i as int).skip(1) =~= ws.skip(i + 1));
            lemma_writes_ok_skip(pre, ws.skip(i as int), 1);
            lemma_writes_ok_preserved(pre, account_views(accounts@), ws.skip(i + 1));
        }
        i = i + 1;
    }
    proof {
        assert(effects@.writes.skip(n as int) =~= Seq::<DataWriteView>::empty());
    }
}

} // verus!
