//! Keyed amount tables: the ledger's balance and allowance maps.
//!
//! A table is a list of `(key, amount)` entries with unique keys. A key that
//! has no entry reads as zero.
use vstd::prelude::*;
use crate::address::Address;
use crate::uint::{U256, u256_max, lemma_u256_range};

verus! {

/// Keys whose executable comparison is exact equality.
pub trait TableKey: Copy + Sized {
    fn same(&self, other: &Self) -> (r: bool)
        ensures
            r == (*self == *other),
    ;
}

impl TableKey for Address {
    fn same(&self, other: &Address) -> (r: bool) {
        *self == *other
    }
}

/// The key of an allowance: what `spender` may move out of `owner`'s balance.
#[derive(Clone, Copy, Debug)]
pub struct AllowanceKey {
    pub owner: Address,
    pub spender: Address,
}

impl TableKey for AllowanceKey {
    fn same(&self, other: &AllowanceKey) -> (r: bool) {
        self.owner == other.owner && self.spender == other.spender
    }
}

/// No key occurs twice.
pub open spec fn keys_unique<K>(s: Seq<(K, U256)>) -> bool {
    forall|i: int, j: int| 0 <= i < j < s.len() ==> s[i].0 != s[j].0
}

/// The amount stored under `k`, zero where there is none.
pub open spec fn lookup<K>(s: Seq<(K, U256)>, k: K) -> nat
    decreases s.len(),
{
    if s.len() == 0 {
        0
    } else if s.last().0 == k {
        s.last().1@
    } else {
        lookup(s.drop_last(), k)
    }
}

/// The sum of all amounts in the table.
pub open spec fn sum<K>(s: Seq<(K, U256)>) -> nat
    decreases s.len(),
{
    if s.len() == 0 {
        0
    } else {
        sum(s.drop_last()) + s.last().1@
    }
}

/// Where no entry has key `k`, `k` reads as zero.
pub proof fn lemma_lookup_absent<K>(s: Seq<(K, U256)>, k: K)
    requires
        forall|i: int| 0 <= i < s.len() ==> s[i].0 != k,
    ensures
        lookup(s, k) == 0,
    decreases s.len(),
{
    if s.len() > 0 {
        lemma_lookup_absent(s.drop_last(), k);
    }
}

/// With unique keys, the entry at `i` is what its key reads as.
pub proof fn lemma_lookup_at<K>(s: Seq<(K, U256)>, i: int)
    requires
        keys_unique(s),
        0 <= i < s.len(),
    ensures
        lookup(s, s[i].0) == s[i].1@,
    decreases s.len(),
{
    if i < s.len() - 1 {
        lemma_lookup_at(s.drop_last(), i);
    }
}

/// Replacing the entry at `i` changes what its key reads as, and nothing else.
pub proof fn lemma_lookup_update<K>(s: Seq<(K, U256)>, i: int, v: U256, k: K)
    requires
        keys_unique(s),
        0 <= i < s.len(),
    ensures
        lookup(s.update(i, (s[i].0, v)), k) == if k == s[i].0 { v@ } else { lookup(s, k) },
    decreases s.len(),
{
    let t = s.update(i, (s[i].0, v));
    if i == s.len() - 1 {
        assert(t.drop_last() =~= s.drop_last());
    } else {
        assert(t.drop_last() =~= s.drop_last().update(i, (s[i].0, v)));
        lemma_lookup_update(s.drop_last(), i, v, k);
    }
}

/// Replacing the entry at `i` changes the sum by the difference of the amounts.
pub proof fn lemma_sum_update<K>(s: Seq<(K, U256)>, i: int, v: U256)
    requires
        0 <= i < s.len(),
    ensures
        sum(s.update(i, (s[i].0, v))) == sum(s) - s[i].1@ + v@,
    decreases s.len(),
{
    let t = s.update(i, (s[i].0, v));
    if i == s.len() - 1 {
        assert(t.drop_last() =~= s.drop_last());
    } else {
        assert(t.drop_last() =~= s.drop_last().update(i, (s[i].0, v)));
        lemma_sum_update(s.drop_last(), i, v);
    }
}

/// No single key holds more than the whole table.
pub proof fn lemma_lookup_le_sum<K>(s: Seq<(K, U256)>, k: K)
    ensures
        lookup(s, k) <= sum(s),
    decreases s.len(),
{
    if s.len() > 0 {
        lemma_lookup_le_sum(s.drop_last(), k);
    }
}

/// Every key reads as a 256-bit amount.
pub proof fn lemma_lookup_in_range<K>(s: Seq<(K, U256)>, k: K)
    ensures
        lookup(s, k) <= u256_max(),
    decreases s.len(),
{
    if s.len() > 0 {
        lemma_u256_range(s.last().1);
        lemma_lookup_in_range(s.drop_last(), k);
    }
}

/// A table of amounts keyed by `K`.
pub struct AmountTable<K> {
    pub entries: Vec<(K, U256)>,
}

impl<K> View for AmountTable<K> {
    type V = Seq<(K, U256)>;

    open spec fn view(&self) -> Seq<(K, U256)> {
        self.entries@
    }
}

impl<K: TableKey> AmountTable<K> {
    /// An empty table: every key reads as zero.
    pub fn new() -> (r: AmountTable<K>)
        ensures
            r@.len() == 0,
            keys_unique(r@),
    {
        AmountTable { entries: Vec::new() }
    }

    /// A copy of the table.
    pub fn copy(&self) -> (r: AmountTable<K>)
        ensures
            r@ == self@,
    {
        let mut entries: Vec<(K, U256)> = Vec::new();
        let mut i: usize = 0;
        while i < self.entries.len()
            invariant
                0 <= i <= self@.len(),
                entries@ == self@.subrange(0, i as int),
            decreases self@.len() - i,
        {
            entries.push(self.entries[i]);
            i += 1;
        }
        assert(self@.subrange(0, self@.len() as int) =~= self@);
        AmountTable { entries }
    }

    /// The index of the entry for `k`, if there is one.
    fn find(&self, k: &K) -> (r: Option<usize>)
        ensures
            r matches Some(i) ==> i < self@.len() && self@[i as int].0 == *k,
            r is None ==> forall|i: int| 0 <= i < self@.len() ==> self@[i].0 != *k,
    {
        let mut i: usize = 0;
        while i < self.entries.len()
            invariant
                0 <= i <= self@.len(),
                forall|j: int| 0 <= j < i ==> self@[j].0 != *k,
            decreases self@.len() - i,
        {
            if self.entries[i].0.same(k) {
                return Some(i);
            }
            i += 1;
        }
        None
    }

    /// The amount stored under `k`, zero where there is none.
    pub fn get(&self, k: &K) -> (r: U256)
        requires
            keys_unique(self@),
        ensures
            r@ == lookup(self@, *k),
    {
        match self.find(k) {
            Some(i) => {
                proof {
                    lemma_lookup_at(self@, i as int);
                }
                self.entries[i].1
            },
            None => {
                proof {
                    lemma_lookup_absent(self@, *k);
                }
                U256::zero()
            },
        }
    }

    /// Stores `v` under `k`.
    pub fn set(&mut self, k: K, v: U256)
        requires
            keys_unique(old(self)@),
        ensures
            keys_unique(final(self)@),
            lookup(final(self)@, k) == v@,
            forall|j: K| j != k ==> #[trigger] lookup(final(self)@, j) == lookup(old(self)@, j),
            sum(final(self)@) == sum(old(self)@) - lookup(old(self)@, k) + v@,
    {
        match self.find(&k) {
            Some(i) => {
                proof {
                    lemma_lookup_at(self@, i as int);
                    lemma_sum_update(self@, i as int, v);
                    assert forall|j: K| true implies lookup(self@.update(i as int, (self@[i as int].0, v)), j)
                        == if j == k { v@ } else { lookup(self@, j) } by {
                        lemma_lookup_update(self@, i as int, v, j);
                    }
                }
                self.entries.set(i, (k, v));
            },
            None => {
                proof {
                    lemma_lookup_absent(self@, k);
                    assert(self@.push((k, v)).drop_last() =~= self@);
                }
                self.entries.push((k, v));
            },
        }
    }
}

} // verus!
