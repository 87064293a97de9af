//! The account table: accounts keyed by address and kept in ascending address
//! order, so that every walk over it, and the commitment built from it, sees
//! the accounts in one canonical order.

use crate::account::{empty_account, AccountModel, AccountState};
use crate::bytes::{addr_eq, addr_less, addr_lt, lemma_addr_less_transitive, Address};
use vstd::prelude::*;

verus! {

/// The mathematical value of the account table: its entries in table order.
pub type AccountSeq = Seq<(Address, AccountModel)>;

/// The index of the first entry at or after `start` with address `key`, or
/// the length where there is none.
pub open spec fn account_find(table: AccountSeq, key: Address, start: int) -> int
    decreases table.len() - start,
{
    if start < 0 || start >= table.len() {
        table.len() as int
    } else if table[start].0 == key {
        start
    } else {
        account_find(table, key, start + 1)
    }
}

/// The index of the first entry at or after `start` whose address is not
/// below `key`, or the length where every address is below it.
pub open spec fn account_rank(table: AccountSeq, key: Address, start: int) -> int
    decreases table.len() - start,
{
    if start < 0 || start >= table.len() {
        table.len() as int
    } else if !addr_less(table[start].0, key) {
        start
    } else {
        account_rank(table, key, start + 1)
    }
}

/// Whether the table holds an account for `key`.
pub open spec fn accounts_has(table: AccountSeq, key: Address) -> bool {
    account_find(table, key, 0) < table.len()
}

/// The account at `key`; the empty account where the table holds none.
pub open spec fn accounts_get(table: AccountSeq, key: Address) -> AccountModel {
    let i = account_find(table, key, 0);
    if i < table.len() {
        table[i].1
    } else {
        empty_account()
    }
}

/// The table with `account` at `key`: written over the address's entry where
/// it has one, else inserted before the first entry with a greater address.
pub open spec fn accounts_put(table: AccountSeq, key: Address, account: AccountModel) -> AccountSeq {
    let i = account_find(table, key, 0);
    if i < table.len() {
        table.update(i, (key, account))
    } else {
        table.insert(account_rank(table, key, 0), (key, account))
    }
}

/// The table without the account at `key`.
pub open spec fn accounts_without(table: AccountSeq, key: Address) -> AccountSeq {
    let i = account_find(table, key, 0);
    if i < table.len() {
        table.remove(i)
    } else {
        table
    }
}

/// The addresses ascend strictly along the table.
pub open spec fn accounts_sorted(table: AccountSeq) -> bool {
    forall|i: int, j: int| 0 <= i < j < table.len() ==> addr_less(#[trigger] table[i].0, #[trigger] table[j].0)
}

/// What `account_find` returns: in range, a match where below the length, and
/// no match before it.
pub proof fn lemma_account_find(table: AccountSeq, key: Address, start: int)
    requires
        0 <= start <= table.len(),
    ensures
        start <= account_find(table, key, start) <= table.len(),
        account_find(table, key, start) < table.len() ==> table[account_find(table, key, start)].0
            == key,
        forall|j: int| start <= j < account_find(table, key, start) ==> table[j].0 != key,
    decreases table.len() - start,
{
    if start < table.len() && table[start].0 != key {
        lemma_account_find(table, key, start + 1);
    }
}

/// An index with no match before it, and a match at it or the length, is what
/// `account_find` returns.
pub proof fn lemma_account_find_is(table: AccountSeq, key: Address, start: int, i: int)
    requires
        0 <= start <= i <= table.len(),
        forall|j: int| start <= j < i ==> table[j].0 != key,
        i < table.len() ==> table[i].0 == key,
    ensures
        account_find(table, key, start) == i,
    decreases i - start,
{
    if start < i {
        lemma_account_find_is(table, key, start + 1, i);
    }
}

/// What `account_rank` returns: in range, every address before it below
/// `key`, and the address at it not below `key`.
pub proof fn lemma_account_rank(table: AccountSeq, key: Address, start: int)
    requires
        0 <= start <= table.len(),
    ensures
        start <= account_rank(table, key, start) <= table.len(),
        account_rank(table, key, start) < table.len() ==> !addr_less(
            table[account_rank(table, key, start)].0,
            key,
        ),
        forall|j: int| start <= j < account_rank(table, key, start) ==> addr_less(table[j].0, key),
    decreases table.len() - start,
{
    if start < table.len() && addr_less(table[start].0, key) {
        lemma_account_rank(table, key, start + 1);
    }
}

/// An index with every address before it below `key`, and an address not
/// below `key` at it or the length, is what `account_rank` returns.
pub proof fn lemma_account_rank_is(table: AccountSeq, key: Address, start: int, i: int)
    requires
        0 <= start <= i <= table.len(),
        forall|j: int| start <= j < i ==> addr_less(table[j].0, key),
        i < table.len() ==> !addr_less(table[i].0, key),
    ensures
        account_rank(table, key, start) == i,
    decreases i - start,
{
    if start < i {
        lemma_account_rank_is(table, key, start + 1, i);
    }
}

/// After a write the address reads back the account written, and every other
/// address reads as before.
pub proof fn lemma_accounts_put_get(table: AccountSeq, key: Address, account: AccountModel, other: Address)
    ensures
        accounts_has(accounts_put(table, key, account), key),
        accounts_get(accounts_put(table, key, account), key) == account,
        other != key ==> accounts_get(accounts_put(table, key, account), other) == accounts_get(
            table,
            other,
        ),
        other != key ==> accounts_has(accounts_put(table, key, account), other) == accounts_has(
            table,
            other,
        ),
{
    let f = account_find(table, key, 0);
    let r = account_rank(table, key, 0);
    let after = accounts_put(table, key, account);
    lemma_account_find(table, key, 0);
    lemma_account_rank(table, key, 0);
    if f < table.len() {
        lemma_account_find_is(after, key, 0, f);
    } else {
        lemma_account_find_is(after, key, 0, r);
    }
    if other != key {
        let k = account_find(table, other, 0);
        lemma_account_find(table, other, 0);
        if f < table.len() {
            lemma_account_find_is(after, other, 0, k);
        } else if k < r {
            lemma_account_find_is(after, other, 0, k);
        } else {
            assert forall|j: int| 0 <= j < k + 1 implies after[j].0 != other by {
                if j > r {
                    assert(after[j] == table[j - 1]);
                }
            }
            lemma_account_find_is(after, other, 0, k + 1);
        }
    }
}

/// Writing to an address that held nothing and removing it again gives the
/// table back; so does writing an account over another and writing the first
/// one back.
pub proof fn lemma_accounts_put_undo(table: AccountSeq, key: Address, account: AccountModel)
    ensures
        !accounts_has(table, key) ==> accounts_without(accounts_put(table, key, account), key)
            == table,
        accounts_has(table, key) ==> accounts_put(
            accounts_put(table, key, account),
            key,
            accounts_get(table, key),
        ) == table,
{
    let f = account_find(table, key, 0);
    let r = account_rank(table, key, 0);
    let after = accounts_put(table, key, account);
    lemma_account_find(table, key, 0);
    lemma_account_rank(table, key, 0);
    if f < table.len() {
        lemma_account_find_is(after, key, 0, f);
        assert(after.update(f, (key, table[f].1)) =~= table);
    } else {
        lemma_account_find_is(after, key, 0, r);
        assert(after.remove(r) =~= table);
    }
}

/// A write keeps the addresses in ascending order.
pub proof fn lemma_accounts_put_sorted(table: AccountSeq, key: Address, account: AccountModel)
    requires
        accounts_sorted(table),
    ensures
        accounts_sorted(accounts_put(table, key, account)),
{
    let f = account_find(table, key, 0);
    let r = account_rank(table, key, 0);
    let after = accounts_put(table, key, account);
    lemma_account_find(table, key, 0);
    lemma_account_rank(table, key, 0);
    if f < table.len() {
        assert forall|i: int, j: int| 0 <= i < j < after.len() implies addr_less(
            #[trigger] after[i].0,
            #[trigger] after[j].0,
        ) by {
            assert(after[i].0 == table[i].0);
            assert(after[j].0 == table[j].0);
        }
    } else {
        assert forall|i: int, j: int| 0 <= i < j < after.len() implies addr_less(
            #[trigger] after[i].0,
            #[trigger] after[j].0,
        ) by {
            lemma_rank_bounds(table, key, r);
            if j < r {
                assert(after[i] == table[i] && after[j] == table[j]);
            } else if j == r {
                assert(after[i] == table[i]);
            } else if i == r {
                assert(after[j] == table[j - 1]);
            } else if i > r {
                assert(after[i] == table[i - 1] && after[j] == table[j - 1]);
            } else {
                assert(after[i] == table[i] && after[j] == table[j - 1]);
                if j - 1 == i {
                    assert(false);
                }
            }
        }
    }
}

/// In a sorted table without `key`, every address from the rank on is above
/// `key`.
proof fn lemma_rank_bounds(table: AccountSeq, key: Address, r: int)
    requires
        accounts_sorted(table),
        r == account_rank(table, key, 0),
        account_find(table, key, 0) == table.len(),
    ensures
        forall|j: int| 0 <= j < r ==> addr_less(table[j].0, key),
        forall|j: int| r <= j < table.len() ==> addr_less(key, table[j].0),
{
    lemma_account_find(table, key, 0);
    lemma_account_rank(table, key, 0);
    assert forall|j: int| r <= j < table.len() implies addr_less(key, table[j].0) by {
        crate::bytes::lemma_addr_total(table[r].0, key);
        if j > r {
            lemma_addr_less_transitive(key, table[r].0, table[j].0);
        }
    }
}

/// One address with its account.
#[derive(Debug)]
pub struct AccountEntry {
    pub address: Address,
    pub account: AccountState,
}

/// The accounts of a state, in ascending address order.
#[derive(Debug)]
pub struct AccountMap {
    entries: Vec<AccountEntry>,
}

impl View for AccountMap {
    type V = AccountSeq;

    closed spec fn view(&self) -> AccountSeq {
        Seq::new(self.entries@.len(), |i: int| (self.entries@[i].address, self.entries@[i].account@))
    }
}

impl AccountMap {
    #[verifier::type_invariant]
    spec fn ordered(self) -> bool {
        accounts_sorted(self@)
    }

    /// A table without accounts.
    pub fn new() -> (r: Self)
        ensures
            r@ == AccountSeq::empty(),
    {
        let r = AccountMap { entries: Vec::new() };
        assert(r@ =~= AccountSeq::empty());
        r
    }

    /// The number of accounts. The table's addresses ascend strictly, so
    /// none occurs twice.
    pub fn len(&self) -> (n: usize)
        ensures
            n == self@.len(),
            accounts_sorted(self@),
    {
        proof {
            use_type_invariant(self);
        }
        self.entries.len()
    }

    /// The address of the `i`-th account in ascending order.
    pub fn address_at(&self, i: usize) -> (a: Address)
        requires
            i < self@.len(),
        ensures
            a == self@[i as int].0,
    {
        self.entries[i].address
    }

    /// The `i`-th account in ascending address order.
    pub fn account_at(&self, i: usize) -> (a: &AccountState)
        requires
            i < self@.len(),
        ensures
            a@ == self@[i as int].1,
    {
        &self.entries[i].account
    }

    fn position(&self, address: &Address) -> (i: usize)
        ensures
            i == account_find(self@, *address, 0),
            i <= self.entries@.len(),
    {
        let mut i: usize = 0;
        while i < self.entries.len()
            invariant
                i <= self.entries@.len(),
                forall|j: int| 0 <= j < i ==> self@[j].0 != *address,
            decreases self.entries@.len() - i,
        {
            if addr_eq(&self.entries[i].address, address) {
                proof {
                    lemma_account_find_is(self@, *address, 0, i as int);
                }
                return i;
            }
            i = i + 1;
        }
        proof {
            lemma_account_find_is(self@, *address, 0, i as int);
        }
        i
    }

    fn rank(&self, address: &Address) -> (i: usize)
        ensures
            i == account_rank(self@, *address, 0),
            i <= self.entries@.len(),
    {
        let mut i: usize = 0;
        while i < self.entries.len()
            invariant
                i <= self.entries@.len(),
                forall|j: int| 0 <= j < i ==> addr_less(self@[j].0, *address),
            decreases self.entries@.len() - i,
        {
            if !addr_lt(&self.entries[i].address, address) {
                proof {
                    lemma_account_rank_is(self@, *address, 0, i as int);
                }
                return i;
            }
            i = i + 1;
        }
        proof {
            lemma_account_rank_is(self@, *address, 0, i as int);
        }
        i
    }

    /// Whether the table holds an account for `address`.
    pub fn contains_key(&self, address: &Address) -> (r: bool)
        ensures
            r == accounts_has(self@, *address),
    {
        self.position(address) < self.entries.len()
    }

    /// The account at `address`, if the table holds one.
    pub fn get(&self, address: &Address) -> (r: Option<&AccountState>)
        ensures
            r.is_some() == accounts_has(self@, *address),
            r matches Some(a) ==> a@ == accounts_get(self@, *address),
    {
        let i = self.position(address);
        if i < self.entries.len() {
            Some(&self.entries[i].account)
        } else {
            None
        }
    }

    /// A copy of the account at `address`; the empty account where the table
    /// holds none.
    pub fn get_or_default(&self, address: &Address) -> (r: AccountState)
        ensures
            r@ == accounts_get(self@, *address),
    {
        let i = self.position(address);
        if i < self.entries.len() {
            self.entries[i].account.clone()
        } else {
            AccountState::default()
        }
    }

    /// Writes `account` over the `i`-th account, keeping its address.
    pub fn replace_at(&mut self, i: usize, account: AccountState)
        requires
            i < old(self)@.len(),
        ensures
            final(self)@ == old(self)@.update(i as int, (old(self)@[i as int].0, account@)),
    {
        proof {
            use_type_invariant(&*self);
        }
        let ghost put = self@.update(i as int, (self@[i as int].0, account@));
        let mut entries: Vec<AccountEntry> = Vec::new();
        core::mem::swap(&mut entries, &mut self.entries);
        entries[i].account = account;
        assert(Seq::new(entries@.len(), |k: int| (entries@[k].address, entries@[k].account@))
            =~= put);
        assert forall|a: int, b: int| 0 <= a < b < put.len() implies addr_less(
            #[trigger] put[a].0,
            #[trigger] put[b].0,
        ) by {
            assert(put[a].0 == old(self)@[a].0 && put[b].0 == old(self)@[b].0);
        }
        self.entries = entries;
    }

    /// Removes the account at `address`, if the table holds one.
    pub(crate) fn remove(&mut self, address: &Address)
        ensures
            final(self)@ == accounts_without(old(self)@, *address),
    {
        proof {
            use_type_invariant(&*self);
        }
        let i = self.position(address);
        if i < self.entries.len() {
            let ghost gone = self@.remove(i as int);
            let mut entries: Vec<AccountEntry> = Vec::new();
            core::mem::swap(&mut entries, &mut self.entries);
            entries.remove(i);
            assert(Seq::new(entries@.len(), |k: int| (entries@[k].address, entries@[k].account@))
                =~= gone);
            assert forall|a: int, b: int| 0 <= a < b < gone.len() implies addr_less(
                #[trigger] gone[a].0,
                #[trigger] gone[b].0,
            ) by {
                let a0 = if a < i { a } else { a + 1 };
                let b0 = if b < i { b } else { b + 1 };
                assert(gone[a].0 == old(self)@[a0].0 && gone[b].0 == old(self)@[b0].0);
            }
            self.entries = entries;
        }
    }

    /// Writes `account` at `address`.
    pub fn insert(&mut self, address: Address, account: AccountState)
        ensures
            final(self)@ == accounts_put(old(self)@, address, account@),
            accounts_sorted(final(self)@),
    {
        proof {
            use_type_invariant(&*self);
            lemma_accounts_put_sorted(self@, address, account@);
        }
        let i = self.position(&address);
        if i < self.entries.len() {
            proof {
                lemma_account_find(self@, address, 0);
            }
            let ghost before = self@;
            let ghost put = accounts_put(self@, address, account@);
            let mut entries: Vec<AccountEntry> = Vec::new();
            core::mem::swap(&mut entries, &mut self.entries);
            entries[i].account = account;
            assert(Seq::new(entries@.len(), |k: int| (entries@[k].address, entries@[k].account@))
                =~= put);
            self.entries = entries;
        } else {
            let r = self.rank(&address);
            let ghost put = accounts_put(self@, address, account@);
            let mut entries: Vec<AccountEntry> = Vec::new();
            core::mem::swap(&mut entries, &mut self.entries);
            entries.insert(r, AccountEntry { address, account });
            assert(Seq::new(entries@.len(), |k: int| (entries@[k].address, entries@[k].account@))
                =~= put);
            self.entries = entries;
        }
    }
}

impl Clone for AccountMap {
    fn clone(&self) -> (r: Self)
        ensures
            r@ == self@,
    {
        proof {
            use_type_invariant(self);
        }
        let mut out: Vec<AccountEntry> = Vec::new();
        let mut i: usize = 0;
        while i < self.entries.len()
            invariant
                i <= self.entries@.len(),
                out@.len() == i,
                forall|j: int|
                    0 <= j < i ==> out@[j].address == self.entries@[j].address && out@[j].account@
                        == self.entries@[j].account@,
            decreases self.entries@.len() - i,
        {
            out.push(AccountEntry { address: self.entries[i].address, account: self.entries[i].account.clone() });
            i = i + 1;
        }
        assert(Seq::new(out@.len(), |k: int| (out@[k].address, out@[k].account@)) =~= self@);
        AccountMap { entries: out }
    }
}

impl Default for AccountMap {
    fn default() -> (r: Self)
        ensures
            r@ == AccountSeq::empty(),
    {
        AccountMap::new()
    }
}

} // verus!
