//! Models of the host-visible account world: the accounts an instruction
//! receives, the account metas and instructions it hands back to the host
//! for cross-program calls.

use vstd::prelude::*;
use crate::addr::Address;

verus! {

/// One entry of an instruction's account list: which account the callee
/// receives, and with which privileges.
#[derive(Clone, Copy, PartialEq, Eq, Structural, Debug)]
pub struct AccountMeta {
    pub address: Address,
    pub is_signer: bool,
    pub is_writable: bool,
}

impl AccountMeta {
    /// A writable, non-signing entry for `address`, optionally signing.
    pub fn writable(address: Address, is_signer: bool) -> (r: AccountMeta)
        ensures
            r == (AccountMeta { address, is_signer, is_writable: true }),
    {
        AccountMeta { address, is_signer, is_writable: true }
    }

    /// A read-only entry for `address`, optionally signing.
    pub fn readonly(address: Address, is_signer: bool) -> (r: AccountMeta)
        ensures
            r == (AccountMeta { address, is_signer, is_writable: false }),
    {
        AccountMeta { address, is_signer, is_writable: false }
    }
}

/// A cross-program instruction: the program to invoke, the account list it
/// receives, and its instruction bytes.
#[derive(Clone, PartialEq, Eq, Debug)]
pub struct Instruction {
    pub program_id: Address,
    pub accounts: Vec<AccountMeta>,
    pub data: Vec<u8>,
}

/// The mathematical value of an [`Instruction`].
#[verifier::ext_equal]
pub struct InstructionView {
    pub program_id: Address,
    pub accounts: Seq<AccountMeta>,
    pub data: Seq<u8>,
}

impl View for Instruction {
    type V = InstructionView;

    open spec fn view(&self) -> InstructionView {
        InstructionView { program_id: self.program_id, accounts: self.accounts@, data: self.data@ }
    }
}

/// One account as supplied by the host for the current instruction:
/// its identity, the program that owns it, its balance, its raw stored
/// bytes, and the privileges the caller granted.
#[derive(Clone, PartialEq, Eq, Debug)]
pub struct Account {
    pub key: Address,
    pub owner: Address,
    pub lamports: u64,
    pub data: Vec<u8>,
    pub is_signer: bool,
    pub is_writable: bool,
}

/// The mathematical value of an [`Account`].
#[verifier::ext_equal]
pub struct AccountView {
    pub key: Address,
    pub owner: Address,
    pub lamports: u64,
    pub data: Seq<u8>,
    pub is_signer: bool,
    pub is_writable: bool,
}

impl View for Account {
    type V = AccountView;

    open spec fn view(&self) -> AccountView {
        AccountView {
            key: self.key,
            owner: self.owner,
            lamports: self.lamports,
            data: self.data@,
            is_signer: self.is_signer,
            is_writable: self.is_writable,
        }
    }
}

/// The views of a whole account list.
pub open spec fn account_views(accounts: Seq<Account>) -> Seq<AccountView> {
    accounts.map_values(|a: Account| a@)
}

/// The meta under which an account is forwarded verbatim to a child
/// strategy: same privileges the caller granted on it.
pub open spec fn spec_passthrough_meta(a: AccountView) -> AccountMeta {
    AccountMeta { address: a.key, is_signer: a.is_signer, is_writable: a.is_writable }
}

/// The metas of every account from `start` on, forwarded verbatim.
pub open spec fn spec_passthrough_metas(accounts: Seq<AccountView>, start: int) -> Seq<AccountMeta>
    recommends
        0 <= start <= accounts.len(),
{
    accounts.skip(start).map_values(|a: AccountView| spec_passthrough_meta(a))
}

/// Appends to `metas` one forwarded entry per account from `start` on.
pub fn push_passthrough_metas(metas: &mut Vec<AccountMeta>, accounts: &Vec<Account>, start: usize)
    requires
        start <= accounts@.len(),
    ensures
        final(metas)@ == old(metas)@ + spec_passthrough_metas(account_views(accounts@), start as int),
{
    let n = accounts.len();
    let mut i = start;
    while i < n
        invariant
            start <= i <= n,
            n == accounts@.len(),
            metas@ == old(metas)@ + spec_passthrough_metas(account_views(accounts@), start as int)
                .take(i - start),
        decreases n - i,
    {
        let a = &accounts[i];
        metas.push(AccountMeta { address: a.key, is_signer: a.is_signer, is_writable: a.is_writable });
        proof {
            let full = spec_passthrough_metas(account_views(accounts@), start as int);
            assert(full.take(i + 1 - start) =~= full.take(i - start).push(full[i - start]));
        }
        i = i + 1;
    }
    proof {
        let full = spec_passthrough_metas(account_views(accounts@), start as int);
        assert(full.take(n - start) =~= full);
    }
}

} // verus!
