//! A small keyed map over a vector of entries, the storage behind every
//! per-account table of the contracts (balances, allowances, collateral,
//! bonds, cash, whitelists, prices).
use vstd::prelude::*;

verus! {

/// A key whose executable comparison is spec equality.
pub trait MapKey: Copy + Sized {
    fn same(&self, other: &Self) -> (r: bool)
        ensures
            r == (*self == *other),
    ;
}

/// The map that a sequence of entries stands for; a later entry for a key
/// hides an earlier one.
pub open spec fn seq_to_map<K, V>(s: Seq<(K, V)>) -> Map<K, V>
    decreases s.len(),
{
    if s.len() == 0 {
        Map::empty()
    } else {
        seq_to_map(s.drop_last()).insert(s.last().0, s.last().1)
    }
}

/// No key occurs twice among the entries.
pub open spec fn keys_distinct<K, V>(s: Seq<(K, V)>) -> bool {
    forall|i: int, j: int| 0 <= i < j < s.len() ==> s[i].0 != s[j].0
}

/// Sum of the values of the entries.
pub open spec fn seq_sum<K>(s: Seq<(K, u128)>) -> int
    decreases s.len(),
{
    if s.len() == 0 {
        0
    } else {
        seq_sum(s.drop_last()) + s.last().1
    }
}

proof fn lemma_contains<K, V>(s: Seq<(K, V)>, k: K)
    ensures
        seq_to_map(s).contains_key(k) <==> exists|i: int| 0 <= i < s.len() && s[i].0 == k,
    decreases s.len(),
{
    if s.len() > 0 {
        lemma_contains(s.drop_last(), k);
        if seq_to_map(s.drop_last()).contains_key(k) {
            let i = choose|i: int| 0 <= i < s.drop_last().len() && s.drop_last()[i].0 == k;
            assert(s[i].0 == k);
        }
        if exists|i: int| 0 <= i < s.len() && s[i].0 == k {
            let i = choose|i: int| 0 <= i < s.len() && s[i].0 == k;
            if i < s.len() - 1 {
                assert(s.drop_last()[i].0 == k);
            }
        }
    }
}

proof fn lemma_index<K, V>(s: Seq<(K, V)>, i: int)
    requires
        keys_distinct(s),
        0 <= i < s.len(),
    ensures
        seq_to_map(s).contains_key(s[i].0),
        seq_to_map(s)[s[i].0] == s[i].1,
    decreases s.len(),
{
    if i < s.len() - 1 {
        lemma_index(s.drop_last(), i);
        assert(s.drop_last()[i] == s[i]);
    }
}

proof fn lemma_update<K>(s: Seq<(K, u128)>, i: int, v: u128)
    requires
        keys_distinct(s),
        0 <= i < s.len(),
    ensures
        seq_to_map(s.update(i, (s[i].0, v))) =~= seq_to_map(s).insert(s[i].0, v),
        seq_sum(s.update(i, (s[i].0, v))) == seq_sum(s) - s[i].1 + v,
    decreases s.len(),
{
    let t = s.update(i, (s[i].0, v));
    if i == s.len() - 1 {
        assert(t.drop_last() =~= s.drop_last());
    } else {
        assert(t.drop_last() =~= s.drop_last().update(i, (s[i].0, v)));
        lemma_update(s.drop_last(), i, v);
        assert(s.last().0 != s[i].0);
    }
}

proof fn lemma_update_any<K, V>(s: Seq<(K, V)>, i: int, v: V)
    requires
        keys_distinct(s),
        0 <= i < s.len(),
    ensures
        seq_to_map(s.update(i, (s[i].0, v))) =~= seq_to_map(s).insert(s[i].0, v),
    decreases s.len(),
{
    let t = s.update(i, (s[i].0, v));
    if i == s.len() - 1 {
        assert(t.drop_last() =~= s.drop_last());
    } else {
        assert(t.drop_last() =~= s.drop_last().update(i, (s[i].0, v)));
        lemma_update_any(s.drop_last(), i, v);
        assert(s.last().0 != s[i].0);
    }
}

proof fn lemma_remove<K, V>(s: Seq<(K, V)>, i: int)
    requires
        keys_distinct(s),
        0 <= i < s.len(),
    ensures
        seq_to_map(s.remove(i)) =~= seq_to_map(s).remove(s[i].0),
    decreases s.len(),
{
    let t = s.remove(i);
    if i == s.len() - 1 {
        assert(t =~= s.drop_last());
        lemma_contains(s.drop_last(), s[i].0);
    } else {
        assert(t.drop_last() =~= s.drop_last().remove(i));
        assert(t.last() == s.last());
        lemma_remove(s.drop_last(), i);
        assert(s.last().0 != s[i].0);
    }
}

proof fn lemma_remove_sum<K>(s: Seq<(K, u128)>, i: int)
    requires
        0 <= i < s.len(),
    ensures
        seq_sum(s.remove(i)) == seq_sum(s) - s[i].1,
    decreases s.len(),
{
    let t = s.remove(i);
    if i == s.len() - 1 {
        assert(t =~= s.drop_last());
    } else {
        assert(t.drop_last() =~= s.drop_last().remove(i));
        assert(t.last() == s.last());
        lemma_remove_sum(s.drop_last(), i);
    }
}

/// A map from keys to values, kept as a vector of entries with distinct keys.
#[derive(Clone)]
pub struct KeyMap<K, V> {
    entries: Vec<(K, V)>,
}

impl<K, V> View for KeyMap<K, V> {
    type V = Map<K, V>;

    closed spec fn view(&self) -> Map<K, V> {
        seq_to_map(self.entries@)
    }
}

impl<K: MapKey, V: Copy> KeyMap<K, V> {
    /// The entries have distinct keys.
    pub closed spec fn wf(&self) -> bool {
        keys_distinct(self.entries@)
    }

    /// The empty map.
    pub fn new() -> (m: Self)
        ensures
            m.wf(),
            m@ == Map::<K, V>::empty(),
    {
        KeyMap { entries: Vec::new() }
    }

    fn find(&self, k: &K) -> (r: Option<usize>)
        requires
            self.wf(),
        ensures
            r matches Some(i) ==> i < self.entries@.len() && self.entries@[i as int].0 == *k,
            r is None ==> !self@.contains_key(*k),
    {
        let n = self.entries.len();
        let mut i: usize = 0;
        while i < n
            invariant
                n == self.entries@.len(),
                i <= n,
                forall|j: int| 0 <= j < i ==> self.entries@[j].0 != *k,
            decreases n - i,
        {
            if self.entries[i].0.same(k) {
                return Some(i);
            }
            i = i + 1;
        }
        proof {
            lemma_contains(self.entries@, *k);
        }
        None
    }

    /// The value stored for `k`, if any.
    pub fn get(&self, k: &K) -> (r: Option<V>)
        requires
            self.wf(),
        ensures
            r == (if self@.contains_key(*k) {
                Some(self@[*k])
            } else {
                None
            }),
    {
        match self.find(k) {
            Some(i) => {
                proof {
                    lemma_index(self.entries@, i as int);
                }
                Some(self.entries[i].1)
            },
            None => None,
        }
    }

    /// Whether `k` has a value.
    pub fn contains(&self, k: &K) -> (r: bool)
        requires
            self.wf(),
        ensures
            r == self@.contains_key(*k),
    {
        match self.find(k) {
            Some(i) => {
                proof {
                    lemma_index(self.entries@, i as int);
                }
                true
            },
            None => false,
        }
    }

    /// Stores `v` for `k`.
    pub fn insert(&mut self, k: K, v: V)
        requires
            old(self).wf(),
        ensures
            final(self).wf(),
            final(self)@ == old(self)@.insert(k, v),
    {
        match self.find(&k) {
            Some(i) => {
                proof {
                    lemma_update_any(self.entries@, i as int, v);
                }
                self.entries.set(i, (k, v));
            },
            None => {
                proof {
                    lemma_contains(self.entries@, k);
                }
                self.entries.push((k, v));
                proof {
                    assert(self.entries@.drop_last() =~= old(self).entries@);
                }
            },
        }
    }

    /// Removes the value of `k`, if any.
    pub fn remove(&mut self, k: &K)
        requires
            old(self).wf(),
        ensures
            final(self).wf(),
            final(self)@ == old(self)@.remove(*k),
    {
        match self.find(k) {
            Some(i) => {
                proof {
                    lemma_remove(self.entries@, i as int);
                }
                self.entries.remove(i);
            },
            None => {
                assert(old(self)@.remove(*k) =~= old(self)@);
            },
        }
    }
}

impl<K: MapKey> KeyMap<K, u128> {
    /// Sum of all values.
    pub closed spec fn total(&self) -> int {
        seq_sum(self.entries@)
    }

    /// A value is at most the sum of all values.
    pub proof fn lemma_value_le_total(&self, k: K)
        requires
            self.wf(),
            self@.contains_key(k),
        ensures
            self@[k] <= self.total(),
    {
        lemma_contains(self.entries@, k);
        let i = choose|i: int| 0 <= i < self.entries@.len() && self.entries@[i].0 == k;
        lemma_index(self.entries@, i);
        lemma_sum_ge_entry(self.entries@, i);
    }

    /// The values of two different keys sum to at most the sum of all values.
    pub proof fn lemma_two_values_le_total(&self, k1: K, k2: K)
        requires
            self.wf(),
            k1 != k2,
        ensures
            (if self@.contains_key(k1) {
                self@[k1] as int
            } else {
                0
            }) + (if self@.contains_key(k2) {
                self@[k2] as int
            } else {
                0
            }) <= self.total(),
    {
        lemma_contains(self.entries@, k1);
        lemma_contains(self.entries@, k2);
        lemma_sum_nonneg(self.entries@);
        if self@.contains_key(k1) && self@.contains_key(k2) {
            let i = choose|i: int| 0 <= i < self.entries@.len() && self.entries@[i].0 == k1;
            let j = choose|j: int| 0 <= j < self.entries@.len() && self.entries@[j].0 == k2;
            lemma_index(self.entries@, i);
            lemma_index(self.entries@, j);
            lemma_sum_ge_two(self.entries@, i, j);
        } else if self@.contains_key(k1) {
            self.lemma_value_le_total(k1);
        } else if self@.contains_key(k2) {
            self.lemma_value_le_total(k2);
        }
    }

    /// The empty map sums to zero.
    pub proof fn lemma_empty_total(&self)
        requires
            self.wf(),
            self@ == Map::<K, u128>::empty(),
        ensures
            self.total() == 0,
    {
        if self.entries@.len() > 0 {
            lemma_index(self.entries@, 0);
        }
    }

    /// Stores `v` for `k`, keeping track of the sum.
    pub fn insert_value(&mut self, k: K, v: u128)
        requires
            old(self).wf(),
        ensures
            final(self).wf(),
            final(self)@ == old(self)@.insert(k, v),
            final(self).total() == old(self).total() - (if old(self)@.contains_key(k) {
                old(self)@[k] as int
            } else {
                0
            }) + v,
    {
        match self.find(&k) {
            Some(i) => {
                proof {
                    lemma_update(self.entries@, i as int, v);
                    lemma_index(self.entries@, i as int);
                }
                self.entries.set(i, (k, v));
            },
            None => {
                proof {
                    lemma_contains(self.entries@, k);
                }
                self.entries.push((k, v));
                proof {
                    assert(self.entries@.drop_last() =~= old(self).entries@);
                }
            },
        }
    }

    /// Removes the value of `k`, keeping track of the sum.
    pub fn remove_value(&mut self, k: &K)
        requires
            old(self).wf(),
        ensures
            final(self).wf(),
            final(self)@ == old(self)@.remove(*k),
            final(self).total() == old(self).total() - (if old(self)@.contains_key(*k) {
                old(self)@[*k] as int
            } else {
                0
            }),
    {
        match self.find(k) {
            Some(i) => {
                proof {
                    lemma_remove(self.entries@, i as int);
                    lemma_remove_sum(self.entries@, i as int);
                    lemma_index(self.entries@, i as int);
                }
                self.entries.remove(i);
            },
            None => {
                assert(old(self)@.remove(*k) =~= old(self)@);
            },
        }
    }
}

proof fn lemma_sum_ge_entry<K>(s: Seq<(K, u128)>, i: int)
    requires
        0 <= i < s.len(),
    ensures
        s[i].1 <= seq_sum(s),
    decreases s.len(),
{
    lemma_sum_nonneg(s.drop_last());
    if i < s.len() - 1 {
        lemma_sum_ge_entry(s.drop_last(), i);
        assert(s.drop_last()[i] == s[i]);
    }
}

proof fn lemma_sum_ge_two<K>(s: Seq<(K, u128)>, i: int, j: int)
    requires
        0 <= i < s.len(),
        0 <= j < s.len(),
        i != j,
    ensures
        s[i].1 + s[j].1 <= seq_sum(s),
    decreases s.len(),
{
    let n = s.len() - 1;
    if i == n {
        lemma_sum_ge_entry(s.drop_last(), j);
        assert(s.drop_last()[j] == s[j]);
    } else if j == n {
        lemma_sum_ge_entry(s.drop_last(), i);
        assert(s.drop_last()[i] == s[i]);
    } else {
        lemma_sum_ge_two(s.drop_last(), i, j);
        assert(s.drop_last()[i] == s[i]);
        assert(s.drop_last()[j] == s[j]);
    }
}

proof fn lemma_sum_nonneg<K>(s: Seq<(K, u128)>)
    ensures
        seq_sum(s) >= 0,
    decreases s.len(),
{
    if s.len() > 0 {
        lemma_sum_nonneg(s.drop_last());
    }
}

} // verus!
