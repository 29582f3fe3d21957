//! Per-application, per-method records: a table keyed by the application
//! identifier and the injection method, holding at most one value per key.

use crate::text::str_eq;
use crate::types::InjectionMethod;
use vstd::prelude::*;
use vstd::string::StringExecFns;

verus! {

/// Key of a record: application identifier and method.
pub type RecordKey = (Seq<char>, InjectionMethod);

/// One record of a table.
#[derive(Debug, Clone)]
pub struct KeyedEntry<V> {
    pub app_id: String,
    pub method: InjectionMethod,
    pub value: V,
}

pub open spec fn entry_key<V>(e: KeyedEntry<V>) -> RecordKey {
    (e.app_id@, e.method)
}

/// No two entries share a key.
pub open spec fn unique_keys<V>(s: Seq<KeyedEntry<V>>) -> bool {
    forall|i: int, j: int|
        0 <= i < s.len() && 0 <= j < s.len() && i != j ==> entry_key(s[i]) != entry_key(s[j])
}

/// Some entry has key `k`.
pub open spec fn has_key<V>(s: Seq<KeyedEntry<V>>, k: RecordKey) -> bool {
    exists|i: int| 0 <= i < s.len() && entry_key(s[i]) == k
}

/// The table as a map from keys to values.
pub open spec fn entries_view<V>(s: Seq<KeyedEntry<V>>) -> Map<RecordKey, V> {
    Map::new(
        |k: RecordKey| has_key(s, k),
        |k: RecordKey| s[choose|i: int| 0 <= i < s.len() && entry_key(s[i]) == k].value,
    )
}

/// A table of records keyed by application and method.
#[derive(Debug, Clone)]
pub struct KeyedTable<V> {
    entries: Vec<KeyedEntry<V>>,
}

impl<V> KeyedTable<V> {
    pub closed spec fn wf(&self) -> bool {
        unique_keys(self.entries@)
    }

    pub closed spec fn view(&self) -> Map<RecordKey, V> {
        entries_view(self.entries@)
    }

    /// The entries in the order they were added.
    pub closed spec fn spec_entries(&self) -> Seq<KeyedEntry<V>> {
        self.entries@
    }

    pub proof fn lemma_wf_unique(&self)
        requires
            self.wf(),
        ensures
            unique_keys(self.spec_entries()),
    {
    }

    pub proof fn lemma_view_is_entries(&self)
        ensures
            self.view() == entries_view(self.spec_entries()),
    {
    }

    /// An empty table.
    pub fn new() -> (t: Self)
        ensures
            t.wf(),
            t.view() == Map::<RecordKey, V>::empty(),
    {
        let t = KeyedTable { entries: Vec::new() };
        assert(t.view() =~= Map::<RecordKey, V>::empty());
        t
    }

    proof fn lemma_index_is_choice(s: Seq<KeyedEntry<V>>, i: int)
        requires
            unique_keys(s),
            0 <= i < s.len(),
        ensures
            entries_view(s).contains_key(entry_key(s[i])),
            entries_view(s)[entry_key(s[i])] == s[i].value,
    {
        let k = entry_key(s[i]);
        assert(has_key(s, k));
        let j = choose|j: int| 0 <= j < s.len() && entry_key(s[j]) == k;
        assert(j == i);
    }

    /// Position of the entry with key (`app_id`, `method`), if any.
    pub fn find(&self, app_id: &str, method: InjectionMethod) -> (r: Option<usize>)
        requires
            self.wf(),
        ensures
            r matches Some(i) ==> i < self.spec_entries().len() && entry_key(self.spec_entries()[i as int]) == (app_id@, method),
            r is None ==> !self.view().contains_key((app_id@, method)),
            r is Some == self.view().contains_key((app_id@, method)),
    {
        let mut i: usize = 0;
        while i < self.entries.len()
            invariant
                i <= self.entries@.len(),
                forall|k: int| 0 <= k < i ==> entry_key(#[trigger] self.entries@[k]) != (app_id@, method),
            decreases self.entries@.len() - i,
        {
            if self.entries[i].method == method && str_eq(self.entries[i].app_id.as_str(), app_id) {
                assert(has_key(self.entries@, (app_id@, method)));
                return Some(i);
            }
            i += 1;
        }
        None
    }

    /// The value stored for (`app_id`, `method`), if any.
    pub fn get(&self, app_id: &str, method: InjectionMethod) -> (r: Option<&V>)
        requires
            self.wf(),
        ensures
            r is Some == self.view().contains_key((app_id@, method)),
            r matches Some(v) ==> *v == self.view()[(app_id@, method)],
    {
        match self.find(app_id, method) {
            Some(i) => {
                proof {
                    Self::lemma_index_is_choice(self.entries@, i as int);
                }
                Some(&self.entries[i].value)
            },
            None => None,
        }
    }

    /// Stores `value` under (`app_id`, `method`), replacing any earlier value.
    pub fn set(&mut self, app_id: &str, method: InjectionMethod, value: V)
        requires
            old(self).wf(),
        ensures
            final(self).wf(),
            final(self).view() == old(self).view().insert((app_id@, method), value),
    {
        let ghost k = (app_id@, method);
        match self.find(app_id, method) {
            Some(i) => {
                let e = KeyedEntry { app_id: String::from_str(app_id), method, value };
                self.entries.set(i, e);
                proof {
                    let s0 = old(self).entries@;
                    let s1 = self.entries@;
                    assert(unique_keys(s1)) by {
                        assert forall|a: int, b: int|
                            0 <= a < s1.len() && 0 <= b < s1.len() && a != b implies entry_key(
                            s1[a],
                        ) != entry_key(s1[b]) by {
                            assert(entry_key(s1[i as int]) == entry_key(s0[i as int]));
                            if a != i && b != i {
                                assert(s1[a] == s0[a] && s1[b] == s0[b]);
                            } else if a == i {
                                assert(s1[b] == s0[b]);
                            } else {
                                assert(s1[a] == s0[a]);
                            }
                        }
                    }
                    assert forall|q: RecordKey| #[trigger] has_key(s1, q) == has_key(s0, q) by {
                        if has_key(s0, q) {
                            let j = choose|j: int| 0 <= j < s0.len() && entry_key(s0[j]) == q;
                            if j == i {
                                assert(entry_key(s1[j]) == q);
                            } else {
                                assert(s1[j] == s0[j]);
                            }
                        }
                        if has_key(s1, q) {
                            let j = choose|j: int| 0 <= j < s1.len() && entry_key(s1[j]) == q;
                            if j == i {
                                assert(entry_key(s0[j]) == q);
                            } else {
                                assert(s1[j] == s0[j]);
                            }
                        }
                    }
                    assert forall|q: RecordKey| has_key(s1, q) implies entries_view(s1)[q] == entries_view(s0).insert(k, value)[q] by {
                        let j = choose|j: int| 0 <= j < s1.len() && entry_key(s1[j]) == q;
                        Self::lemma_index_is_choice(s1, j);
                        if j == i {
                            assert(q == k);
                        } else {
                            assert(s1[j] == s0[j]);
                            Self::lemma_index_is_choice(s0, j);
                            assert(q != k);
                        }
                    }
                    assert(entries_view(s1) =~= entries_view(s0).insert(k, value));
                }
            },
            None => {
                let e = KeyedEntry { app_id: String::from_str(app_id), method, value };
                self.entries.push(e);
                proof {
                    let s0 = old(self).entries@;
                    let s1 = self.entries@;
                    let n = s0.len() as int;
                    assert(!has_key(s0, k));
                    assert(unique_keys(s1)) by {
                        assert forall|a: int, b: int|
                            0 <= a < s1.len() && 0 <= b < s1.len() && a != b implies entry_key(
                            s1[a],
                        ) != entry_key(s1[b]) by {
                            if a < n && b < n {
                                assert(s1[a] == s0[a] && s1[b] == s0[b]);
                            } else if a == n {
                                assert(s1[b] == s0[b]);
                            } else {
                                assert(s1[a] == s0[a]);
                            }
                        }
                    }
                    assert forall|q: RecordKey| #[trigger] has_key(s1, q) == (has_key(s0, q) || q == k) by {
                        if has_key(s0, q) {
                            let j = choose|j: int| 0 <= j < s0.len() && entry_key(s0[j]) == q;
                            assert(s1[j] == s0[j]);
                        }
                        if q == k {
                            assert(entry_key(s1[n]) == q);
                        }
                        if has_key(s1, q) && q != k {
                            let j = choose|j: int| 0 <= j < s1.len() && entry_key(s1[j]) == q;
                            assert(j != n);
                            assert(s1[j] == s0[j]);
                        }
                    }
                    assert forall|q: RecordKey| has_key(s1, q) implies entries_view(s1)[q] == entries_view(s0).insert(k, value)[q] by {
                        let j = choose|j: int| 0 <= j < s1.len() && entry_key(s1[j]) == q;
                        Self::lemma_index_is_choice(s1, j);
                        if j == n {
                            assert(q == k);
                        } else {
                            assert(s1[j] == s0[j]);
                            Self::lemma_index_is_choice(s0, j);
                        }
                    }
                    assert(entries_view(s1) =~= entries_view(s0).insert(k, value));
                }
            },
        }
    }

    /// Drops the value stored under (`app_id`, `method`), if any.
    pub fn remove(&mut self, app_id: &str, method: InjectionMethod)
        requires
            old(self).wf(),
        ensures
            final(self).wf(),
            final(self).view() == old(self).view().remove((app_id@, method)),
    {
        let ghost k = (app_id@, method);
        match self.find(app_id, method) {
            Some(i) => {
                let _ = self.entries.remove(i);
                proof {
                    let s0 = old(self).entries@;
                    let s1 = self.entries@;
                    assert(s1 =~= s0.remove(i as int));
                    assert(unique_keys(s1)) by {
                        assert forall|a: int, b: int|
                            0 <= a < s1.len() && 0 <= b < s1.len() && a != b implies entry_key(
                            s1[a],
                        ) != entry_key(s1[b]) by {
                            let a0 = if a < i { a } else { a + 1 };
                            let b0 = if b < i { b } else { b + 1 };
                            assert(s1[a] == s0[a0] && s1[b] == s0[b0]);
                        }
                    }
                    assert forall|q: RecordKey| #[trigger] has_key(s1, q) == (has_key(s0, q) && q != k) by {
                        if has_key(s0, q) && q != k {
                            let j = choose|j: int| 0 <= j < s0.len() && entry_key(s0[j]) == q;
                            assert(j != i);
                            let j1 = if j < i { j } else { j - 1 };
                            assert(s1[j1] == s0[j]);
                        }
                        if has_key(s1, q) {
                            let j = choose|j: int| 0 <= j < s1.len() && entry_key(s1[j]) == q;
                            let j0 = if j < i { j } else { j + 1 };
                            assert(s1[j] == s0[j0]);
                            assert(j0 != i);
                        }
                    }
                    assert forall|q: RecordKey| has_key(s1, q) implies entries_view(s1)[q] == entries_view(s0)[q] by {
                        let j = choose|j: int| 0 <= j < s1.len() && entry_key(s1[j]) == q;
                        Self::lemma_index_is_choice(s1, j);
                        let j0 = if j < i { j } else { j + 1 };
                        assert(s1[j] == s0[j0]);
                        Self::lemma_index_is_choice(s0, j0);
                    }
                    assert(entries_view(s1) =~= entries_view(s0).remove(k));
                }
            },
            None => {
                assert(self.view() =~= old(self).view().remove(k));
            },
        }
    }

    /// Number of records.
    pub fn len(&self) -> (n: usize)
        ensures
            n == self.spec_entries().len(),
    {
        self.entries.len()
    }

    /// The entry at position `i`.
    pub fn entry_at(&self, i: usize) -> (e: &KeyedEntry<V>)
        requires
            i < self.spec_entries().len(),
        ensures
            *e == self.spec_entries()[i as int],
    {
        &self.entries[i]
    }
}

/// Every key of the map is the key of some entry, and every entry is in the map.
pub proof fn lemma_entries_view_keys<V>(s: Seq<KeyedEntry<V>>, i: int)
    requires
        unique_keys(s),
        0 <= i < s.len(),
    ensures
        entries_view(s).contains_key(entry_key(s[i])),
        entries_view(s)[entry_key(s[i])] == s[i].value,
{
    let k = entry_key(s[i]);
    assert(has_key(s, k));
    let j = choose|j: int| 0 <= j < s.len() && entry_key(s[j]) == k;
    assert(j == i);
}

/// Every key of the map comes from some entry.
pub proof fn lemma_entries_view_key_source<V>(s: Seq<KeyedEntry<V>>, k: RecordKey)
    requires
        unique_keys(s),
        entries_view(s).contains_key(k),
    ensures
        exists|i: int| 0 <= i < s.len() && entry_key(s[i]) == k && entries_view(s)[k] == s[i].value,
{
    let i = choose|i: int| 0 <= i < s.len() && entry_key(s[i]) == k;
    lemma_entries_view_keys(s, i);
}

/// `m2` is `m1` with the value at `k` possibly changed.
pub open spec fn same_except<V>(m1: Map<RecordKey, V>, m2: Map<RecordKey, V>, k: RecordKey) -> bool {
    forall|q: RecordKey| q != k ==> (#[trigger] m2.contains_key(q) == m1.contains_key(q) && (m1.contains_key(q) ==> m2[q] == m1[q]))
}

} // verus!
