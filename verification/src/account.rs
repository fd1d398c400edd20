//! An account of the ledger as the program sees it during one call.

use crate::pubkey::Pubkey;
use vstd::prelude::*;

verus! {

/// An account that a call may read and change: who it is, which program owns
/// it, its balance, its bytes, and whether it signed the call.
#[derive(Debug, Clone, PartialEq, Eq)]
pub struct Account {
    pub key: Pubkey,
    pub owner: Pubkey,
    pub lamports: u64,
    pub data: Vec<u8>,
    pub is_signer: bool,
}

/// What an account holds, with its bytes as a sequence.
pub ghost struct AccountView {
    pub key: Pubkey,
    pub owner: Pubkey,
    pub lamports: u64,
    pub data: Seq<u8>,
    pub is_signer: bool,
}

impl View for Account {
    type V = AccountView;

    open spec fn view(&self) -> AccountView {
        AccountView {
            key: self.key,
            owner: self.owner,
            lamports: self.lamports,
            data: self.data@,
            is_signer: self.is_signer,
        }
    }
}

impl AccountView {
    /// The account with another balance.
    pub open spec fn with_lamports(self, lamports: u64) -> AccountView {
        AccountView { lamports, ..self }
    }

    /// The account with other bytes.
    pub open spec fn with_data(self, data: Seq<u8>) -> AccountView {
        AccountView { data, ..self }
    }
}

/// What the accounts hold, one view for each.
pub open spec fn views(accounts: Seq<Account>) -> Seq<AccountView> {
    Seq::new(accounts.len(), |i: int| accounts[i]@)
}

/// The sum of the balances of the accounts.
pub open spec fn total_lamports(accounts: Seq<AccountView>) -> int
    decreases accounts.len(),
{
    if accounts.len() == 0 {
        0
    } else {
        total_lamports(accounts.drop_last()) + accounts.last().lamports
    }
}

/// The sum of the balances is not negative.
pub proof fn lemma_total_nonnegative(accounts: Seq<AccountView>)
    ensures
        total_lamports(accounts) >= 0,
    decreases accounts.len(),
{
    if accounts.len() > 0 {
        lemma_total_nonnegative(accounts.drop_last());
    }
}

/// Replacing one account changes the sum by the difference of the two
/// balances.
pub proof fn lemma_total_update(accounts: Seq<AccountView>, i: int, account: AccountView)
    requires
        0 <= i < accounts.len(),
    ensures
        total_lamports(accounts.update(i, account)) == total_lamports(accounts)
            - accounts[i].lamports + account.lamports,
    decreases accounts.len(),
{
    let updated = accounts.update(i, account);
    if i == accounts.len() - 1 {
        assert(updated.drop_last() =~= accounts.drop_last());
    } else {
        lemma_total_update(accounts.drop_last(), i, account);
        assert(updated.drop_last() =~= accounts.drop_last().update(i, account));
    }
}

/// Two different accounts hold together no more than all of them.
pub proof fn lemma_total_covers_pair(accounts: Seq<AccountView>, i: int, j: int)
    requires
        0 <= i < j < accounts.len(),
    ensures
        accounts[i].lamports + accounts[j].lamports <= total_lamports(accounts),
    decreases accounts.len(),
{
    let rest = accounts.drop_last();
    if j == accounts.len() - 1 {
        lemma_total_nonnegative(rest.update(i, rest[i].with_lamports(0)));
        lemma_total_update(rest, i, rest[i].with_lamports(0));
    } else {
        lemma_total_covers_pair(rest, i, j);
    }
}

/// The first accounts hold together no more than all of them.
pub proof fn lemma_total_covers_prefix(accounts: Seq<AccountView>, n: int)
    requires
        0 <= n <= accounts.len(),
    ensures
        total_lamports(accounts.subrange(0, n)) <= total_lamports(accounts),
    decreases accounts.len() - n,
{
    if n == accounts.len() {
        assert(accounts.subrange(0, n) =~= accounts);
    } else {
        lemma_total_covers_prefix(accounts, n + 1);
        assert(accounts.subrange(0, n + 1).drop_last() =~= accounts.subrange(0, n));
    }
}

/// Whether the balances of the accounts together fit the ledger's unit, as
/// those of accounts of one ledger do.
pub fn total_fits(accounts: &Vec<Account>) -> (fits: bool)
    ensures
        fits == (total_lamports(views(accounts@)) <= u64::MAX),
{
    let ghost all = views(accounts@);
    let mut sum: u64 = 0;
    let mut i: usize = 0;
    while i < accounts.len()
        invariant
            i <= accounts.len(),
            all == views(accounts@),
            sum == total_lamports(all.subrange(0, i as int)),
        decreases accounts.len() - i,
    {
        proof {
            assert(all.subrange(0, i + 1).drop_last() =~= all.subrange(0, i as int));
            lemma_total_covers_prefix(all, i + 1);
        }
        match sum.checked_add(accounts[i].lamports) {
            Some(next) => {
                sum = next;
            },
            None => {
                return false;
            },
        }
        i += 1;
    }
    assert(all.subrange(0, i as int) =~= all);
    true
}

/// Whether no two of the accounts have the same key.
pub open spec fn spec_keys_differ(accounts: Seq<AccountView>) -> bool {
    forall|i: int, j: int| 0 <= i < j < accounts.len() ==> accounts[i].key != accounts[j].key
}

/// Whether no two of the accounts have the same key: whether each account of
/// the ledger is given once.
pub fn keys_differ(accounts: &Vec<Account>) -> (differ: bool)
    ensures
        differ == spec_keys_differ(views(accounts@)),
{
    let ghost all = views(accounts@);
    let mut j: usize = 0;
    while j < accounts.len()
        invariant
            j <= accounts.len(),
            all == views(accounts@),
            forall|a: int, b: int| 0 <= a < b < j ==> all[a].key != all[b].key,
        decreases accounts.len() - j,
    {
        let mut i: usize = 0;
        while i < j
            invariant
                i <= j < accounts.len(),
                all == views(accounts@),
                forall|a: int| 0 <= a < i ==> all[a].key != all[j as int].key,
            decreases j - i,
        {
            if accounts[i].key == accounts[j].key {
                assert(all[i as int].key == all[j as int].key);
                return false;
            }
            i += 1;
        }
        j += 1;
    }
    true
}

impl Account {
    /// An account with the given contents.
    pub fn new(
        key: Pubkey,
        owner: Pubkey,
        lamports: u64,
        data: Vec<u8>,
        is_signer: bool,
    ) -> (account: Account)
        ensures
            account@ == (AccountView { key, owner, lamports, data: data@, is_signer }),
    {
        Account { key, owner, lamports, data, is_signer }
    }

    /// A second account with the same contents.
    pub fn duplicate(&self) -> (copy: Account)
        ensures
            copy@ == self@,
    {
        Account {
            key: self.key,
            owner: self.owner,
            lamports: self.lamports,
            data: self.data.clone(),
            is_signer: self.is_signer,
        }
    }
}

} // verus!
