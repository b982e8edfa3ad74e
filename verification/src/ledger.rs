//! The balance ledger: spendable base-currency balances per identity.
//!
//! An identity with no entry holds a zero balance. Balances move only
//! through the session funding and refunding operations.

use vstd::prelude::*;
use crate::store::bytes_eq;
use crate::addresses::copy_bytes;

verus! {

/// One identity's balance.
pub struct BalanceEntry {
    pub key: Vec<u8>,
    pub amount: u64,
}

/// The ledger of identity balances.
pub struct Ledger {
    pub accounts: Vec<BalanceEntry>,
}

/// No two entries share a key.
pub open spec fn distinct_keys(s: Seq<BalanceEntry>) -> bool {
    forall|i: int, j: int| 0 <= i < j < s.len() ==> s[i].key@ != s[j].key@
}

/// The map from identities to balances that a sequence of entries holds.
pub open spec fn balances_of(s: Seq<BalanceEntry>) -> Map<Seq<u8>, u64>
    decreases s.len(),
{
    if s.len() == 0 {
        Map::empty()
    } else {
        balances_of(s.drop_last()).insert(s.last().key@, s.last().amount)
    }
}

/// An entry of the sequence is in its map, with its amount.
pub proof fn lemma_balances_entry(s: Seq<BalanceEntry>, i: int)
    requires
        0 <= i < s.len(),
        forall|j: int| i < j < s.len() ==> s[j].key@ != s[i].key@,
    ensures
        balances_of(s).contains_key(s[i].key@),
        balances_of(s)[s[i].key@] == s[i].amount,
    decreases s.len(),
{
    if i < s.len() - 1 {
        lemma_balances_entry(s.drop_last(), i);
    }
}

/// A key held by no entry is not in the map.
pub proof fn lemma_balances_absent(s: Seq<BalanceEntry>, k: Seq<u8>)
    requires
        forall|i: int| 0 <= i < s.len() ==> s[i].key@ != k,
    ensures
        !balances_of(s).contains_key(k),
    decreases s.len(),
{
    if s.len() > 0 {
        lemma_balances_absent(s.drop_last(), k);
    }
}

/// Replacing the entry at an index with one of the same key updates the map
/// at that key.
pub proof fn lemma_balances_update(s: Seq<BalanceEntry>, i: int, e: BalanceEntry)
    requires
        distinct_keys(s),
        0 <= i < s.len(),
        e.key@ == s[i].key@,
    ensures
        balances_of(s.update(i, e)) == balances_of(s).insert(e.key@, e.amount),
    decreases s.len(),
{
    if i == s.len() - 1 {
        assert(s.update(i, e).drop_last() =~= s.drop_last());
        assert(balances_of(s.drop_last()).insert(s[i].key@, s[i].amount).insert(e.key@, e.amount)
            =~= balances_of(s.drop_last()).insert(e.key@, e.amount));
    } else {
        assert(s.update(i, e).drop_last() =~= s.drop_last().update(i, e));
        lemma_balances_update(s.drop_last(), i, e);
        assert(s.update(i, e).last() == s.last());
        assert(s.last().key@ != e.key@);
        assert(balances_of(s.drop_last()).insert(e.key@, e.amount).insert(
            s.last().key@,
            s.last().amount,
        ) =~= balances_of(s.drop_last()).insert(s.last().key@, s.last().amount).insert(
            e.key@,
            e.amount,
        ));
    }
}

impl Ledger {
    /// No two entries share a key.
    pub open spec fn wf(self) -> bool {
        distinct_keys(self.accounts@)
    }

    /// The balance of an identity; zero when it holds no entry.
    pub open spec fn balance_of(self, k: Seq<u8>) -> u64 {
        if balances_of(self.accounts@).contains_key(k) {
            balances_of(self.accounts@)[k]
        } else {
            0
        }
    }

    /// An empty ledger: every identity holds zero.
    pub fn new() -> (l: Ledger)
        ensures
            l.wf(),
            forall|k: Seq<u8>| l.balance_of(k) == 0,
    {
        Ledger { accounts: Vec::new() }
    }

    /// The index of an identity's entry, if any.
    fn find_index(&self, k: &Vec<u8>) -> (r: Option<usize>)
        requires
            self.wf(),
        ensures
            (match r {
                Some(i) => i < self.accounts@.len() && self.accounts@[i as int].key@ == k@
                    && self.balance_of(k@) == self.accounts@[i as int].amount,
                None => self.balance_of(k@) == 0 && (forall|j: int|
                    0 <= j < self.accounts@.len() ==> self.accounts@[j].key@ != k@),
            }),
    {
        let mut i: usize = 0;
        while i < self.accounts.len()
            invariant
                self.wf(),
                i <= self.accounts@.len(),
                forall|j: int| 0 <= j < i ==> self.accounts@[j].key@ != k@,
            decreases self.accounts@.len() - i,
        {
            if bytes_eq(&self.accounts[i].key, k) {
                proof {
                    lemma_balances_entry(self.accounts@, i as int);
                }
                return Some(i);
            }
            i = i + 1;
        }
        proof {
            lemma_balances_absent(self.accounts@, k@);
        }
        None
    }

    /// Read an identity's balance.
    pub fn balance(&self, k: &Vec<u8>) -> (r: u64)
        requires
            self.wf(),
        ensures
            r == self.balance_of(k@),
    {
        match self.find_index(k) {
            Some(i) => self.accounts[i].amount,
            None => 0,
        }
    }

    /// Set an identity's balance, leaving every other balance as it was.
    pub fn set_balance(&mut self, k: &Vec<u8>, v: u64)
        requires
            old(self).wf(),
        ensures
            final(self).wf(),
            final(self).balance_of(k@) == v,
            forall|j: Seq<u8>| j != k@ ==> final(self).balance_of(j) == old(self).balance_of(j),
    {
        let ghost pre = self.accounts@;
        match self.find_index(k) {
            Some(i) => {
                let e = self.accounts.remove(i);
                let ghost mid = self.accounts@;
                self.accounts.insert(i, BalanceEntry { key: e.key, amount: v });
                proof {
                    assert(self.accounts@ =~= pre.update(
                        i as int,
                        BalanceEntry { key: pre[i as int].key, amount: v },
                    )) by {
                        assert(mid =~= pre.remove(i as int));
                        assert forall|j: int| 0 <= j < pre.len() implies self.accounts@[j]
                            == pre.update(
                            i as int,
                            BalanceEntry { key: pre[i as int].key, amount: v },
                        )[j] by {
                            if j < i as int {
                                assert(self.accounts@[j] == mid[j]);
                            } else if j > i as int {
                                assert(self.accounts@[j] == mid[j - 1]);
                            }
                        }
                    }
                    lemma_balances_update(
                        pre,
                        i as int,
                        BalanceEntry { key: pre[i as int].key, amount: v },
                    );
                }
            },
            None => {
                self.accounts.push(BalanceEntry { key: copy_bytes(k), amount: v });
                proof {
                    assert(self.accounts@.drop_last() =~= pre);
                }
            },
        }
    }
}

} // verus!
