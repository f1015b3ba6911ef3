//! A small map from 256-bit keys to values, kept as a list of entries in
//! which no key occurs twice.
use crate::u256::U256;
use vstd::prelude::*;

verus! {

/// A map keyed by `U256`, stored as a list of distinct-key entries.
pub struct KeyedList<V> {
    entries: Vec<(U256, V)>,
}

/// No key occurs twice in a list of entries.
pub open spec fn keys_distinct<V>(s: Seq<(U256, V)>) -> bool {
    forall|i: int, j: int| 0 <= i < s.len() && 0 <= j < s.len() && i != j ==> s[i].0 != s[j].0
}

/// Whether some entry has key `k`.
pub open spec fn has_key<V>(s: Seq<(U256, V)>, k: U256) -> bool {
    exists|i: int| 0 <= i < s.len() && s[i].0 == k
}

/// The map that a list of entries stands for.
pub open spec fn entries_map<V>(s: Seq<(U256, V)>) -> Map<U256, V> {
    Map::new(
        |k: U256| has_key(s, k),
        |k: U256| s[choose|i: int| 0 <= i < s.len() && s[i].0 == k].1,
    )
}

impl<V> View for KeyedList<V> {
    type V = Map<U256, V>;

    closed spec fn view(&self) -> Map<U256, V> {
        entries_map(self.entries@)
    }
}

/// The map of a distinct-key list at a key that its `i`-th entry holds.
proof fn lemma_entry_value<V>(s: Seq<(U256, V)>, i: int)
    requires
        keys_distinct(s),
        0 <= i < s.len(),
    ensures
        entries_map(s).contains_key(s[i].0),
        entries_map(s)[s[i].0] == s[i].1,
{
    assert(has_key(s, s[i].0));
    let j = choose|j: int| 0 <= j < s.len() && s[j].0 == s[i].0;
    assert(j == i);
}

impl<V> KeyedList<V> {
    /// No key occurs twice.
    pub closed spec fn wf(&self) -> bool {
        keys_distinct(self.entries@)
    }

    pub fn new() -> (r: KeyedList<V>)
        ensures
            r.wf(),
            r@ == Map::<U256, V>::empty(),
    {
        let r = KeyedList { entries: Vec::new() };
        assert(r@ =~= Map::<U256, V>::empty());
        r
    }

    /// The position of key `k`, if it is there.
    fn position(&self, k: &U256) -> (r: Option<usize>)
        requires
            self.wf(),
        ensures
            match r {
                Some(i) => i < self.entries@.len() && self.entries@[i as int].0 == *k,
                None => !has_key(self.entries@, *k),
            },
    {
        let mut i: usize = 0;
        while i < self.entries.len()
            invariant
                i <= self.entries@.len(),
                forall|j: int| 0 <= j < i ==> self.entries@[j].0 != *k,
            decreases self.entries@.len() - i,
        {
            if self.entries[i].0 == *k {
                return Some(i);
            }
            i = i + 1;
        }
        None
    }

    pub fn contains_key(&self, k: &U256) -> (r: bool)
        requires
            self.wf(),
        ensures
            r == self@.contains_key(*k),
    {
        self.position(k).is_some()
    }

    pub fn get(&self, k: &U256) -> (r: Option<&V>)
        requires
            self.wf(),
        ensures
            match r {
                Some(v) => self@.contains_key(*k) && self@[*k] == *v,
                None => !self@.contains_key(*k),
            },
    {
        match self.position(k) {
            Some(i) => {
                proof {
                    lemma_entry_value(self.entries@, i as int);
                }
                Some(&self.entries[i].1)
            },
            None => None,
        }
    }

    /// Sets the value at `k`, replacing any value it had.
    pub fn insert(&mut self, k: U256, v: V)
        requires
            old(self).wf(),
        ensures
            final(self).wf(),
            final(self)@ == old(self)@.insert(k, v),
    {
        let ghost old_entries = self.entries@;
        let ghost mut ki: int = 0;
        match self.position(&k) {
            Some(i) => {
                self.entries.set(i, (k, v));
                proof {
                    ki = i as int;
                }
            },
            None => {
                self.entries.push((k, v));
                proof {
                    ki = old_entries.len() as int;
                }
            },
        }
        proof {
            let s = self.entries@;
            assert(s[ki].0 == k);
            assert(keys_distinct(s));
            let m = old(self)@.insert(k, v);
            assert forall|key: U256| #[trigger] m.contains_key(key) implies entries_map(s).contains_key(key)
                && entries_map(s)[key] == m[key] by {
                if key == k {
                    lemma_entry_value(s, ki);
                } else {
                    let j = choose|j: int| 0 <= j < old_entries.len() && old_entries[j].0 == key;
                    lemma_entry_value(old_entries, j);
                    assert(s[j] == old_entries[j]);
                    lemma_entry_value(s, j);
                }
            }
            assert forall|key: U256| #[trigger] entries_map(s).contains_key(key) implies m.contains_key(key) by {
                let j = choose|j: int| 0 <= j < s.len() && s[j].0 == key;
                if key != k {
                    assert(old_entries[j].0 == key);
                }
            }
            assert(entries_map(s) =~= m);
        }
    }

    /// Takes the entry at `k` out, if there is one.
    pub fn remove(&mut self, k: &U256)
        requires
            old(self).wf(),
        ensures
            final(self).wf(),
            final(self)@ == old(self)@.remove(*k),
    {
        let ghost old_entries = self.entries@;
        match self.position(k) {
            Some(i) => {
                let _ = self.entries.remove(i);
                proof {
                    let s = self.entries@;
                    assert(s =~= old_entries.subrange(0, i as int) + old_entries.subrange(i + 1, old_entries.len() as int));
                    assert forall|a: int, b: int| 0 <= a < s.len() && 0 <= b < s.len() && a != b implies s[a].0 != s[b].0 by {
                        let oa = if a < i { a } else { a + 1 };
                        let ob = if b < i { b } else { b + 1 };
                        assert(s[a] == old_entries[oa]);
                        assert(s[b] == old_entries[ob]);
                    }
                    let m = old(self)@.remove(*k);
                    assert forall|key: U256| #[trigger] m.contains_key(key) implies entries_map(s).contains_key(key)
                        && entries_map(s)[key] == m[key] by {
                        let j = choose|j: int| 0 <= j < old_entries.len() && old_entries[j].0 == key;
                        lemma_entry_value(old_entries, j);
                        let sj = if j < i { j } else { j - 1 };
                        assert(j != i);
                        assert(s[sj] == old_entries[j]);
                        lemma_entry_value(s, sj);
                    }
                    assert forall|key: U256| #[trigger] entries_map(s).contains_key(key) implies m.contains_key(key) by {
                        let j = choose|j: int| 0 <= j < s.len() && s[j].0 == key;
                        let oj = if j < i { j } else { j + 1 };
                        assert(s[j] == old_entries[oj]);
                        assert(oj != i);
                        assert(has_key(old_entries, key));
                    }
                    assert(entries_map(s) =~= m);
                }
            },
            None => {
                proof {
                    assert(entries_map(old_entries) =~= old(self)@.remove(*k));
                }
            },
        }
    }
}

} // verus!
