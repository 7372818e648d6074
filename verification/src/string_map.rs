//! A map from strings to values that keeps its keys in ascending order,
//! as a `BTreeMap<String, V>` does.

use vstd::prelude::*;
use crate::text::{chars_of, compare_chars, key_lt, KeyOrder, lemma_key_lt_irreflexive,
    lemma_key_lt_transitive};

verus! {

/// Every key sorts strictly before each key after it.
pub open spec fn strictly_sorted(keys: Seq<Seq<char>>) -> bool {
    forall|i: int, j: int| 0 <= i < j < keys.len() ==> key_lt(#[trigger] keys[i], #[trigger] keys[j])
}

/// A map from strings to values, iterated in ascending key order.
#[derive(Debug, PartialEq, Eq)]
pub struct StringMap<V> {
    entries: Vec<(String, V)>,
}

impl<V> StringMap<V> {
    /// The keys, in ascending order.
    pub closed spec fn keys(self) -> Seq<Seq<char>> {
        self.entries@.map_values(|e: (String, V)| e.0@)
    }

    /// The values, in the order of their keys.
    pub closed spec fn values(self) -> Seq<V> {
        self.entries@.map_values(|e: (String, V)| e.1)
    }

    /// The keys are in strictly ascending order.
    #[verifier::type_invariant]
    pub closed spec fn well_formed(self) -> bool {
        strictly_sorted(self.keys())
    }

    /// There is one value for each key.
    pub proof fn lemma_lengths(self)
        ensures
            self.keys().len() == self.values().len(),
    {
    }
}

impl<V> View for StringMap<V> {
    type V = Map<Seq<char>, V>;

    closed spec fn view(&self) -> Map<Seq<char>, V> {
        Map::new(
            |k: Seq<char>| self.keys().contains(k),
            |k: Seq<char>| self.values()[self.keys().index_of(k)],
        )
    }
}

proof fn lemma_sorted_index_of(keys: Seq<Seq<char>>, i: int)
    requires
        strictly_sorted(keys),
        0 <= i < keys.len(),
    ensures
        keys.index_of(keys[i]) == i,
{
    assert(keys.contains(keys[i]));
    let j = keys.index_of(keys[i]);
    assert(0 <= j < keys.len() && keys[j] == keys[i]);
    lemma_key_lt_irreflexive(keys[i]);
}

impl<V> StringMap<V> {
    /// An empty map.
    pub fn new() -> (m: Self)
        ensures
            m.keys() == Seq::<Seq<char>>::empty(),
            m@ == Map::<Seq<char>, V>::empty(),
    {
        let m = StringMap { entries: Vec::new() };
        assert(m.keys() =~= Seq::<Seq<char>>::empty());
        assert(m@ =~= Map::<Seq<char>, V>::empty());
        m
    }

    /// The number of keys.
    pub fn len(&self) -> (n: usize)
        ensures
            n == self.keys().len(),
            n == self.values().len(),
    {
        self.entries.len()
    }

    /// Whether the map holds no key.
    pub fn is_empty(&self) -> (b: bool)
        ensures
            b == (self.keys().len() == 0),
            b == (self@.dom().len() == 0),
    {
        proof {
            use_type_invariant(self);
            self.lemma_view_facts();
        }
        self.entries.len() == 0
    }

    /// The `i`-th key in ascending order.
    pub fn key_at(&self, i: usize) -> (k: &String)
        requires
            i < self.keys().len(),
        ensures
            k@ == self.keys()[i as int],
    {
        &self.entries[i].0
    }

    /// The value of the `i`-th key in ascending order.
    pub fn value_at(&self, i: usize) -> (v: &V)
        requires
            i < self.keys().len(),
        ensures
            *v == self.values()[i as int],
    {
        &self.entries[i].1
    }

    /// What the key order says of the map as a whole: its keys are sorted,
    /// its domain is the set of its keys, and each key maps to its value.
    pub proof fn lemma_view_facts(self)
        requires
            self.well_formed(),
        ensures
            strictly_sorted(self.keys()),
            self@.dom() == self.keys().to_set(),
            self@.dom().finite(),
            self@.dom().len() == self.keys().len(),
            self.keys().no_duplicates(),
            forall|i: int| 0 <= i < self.keys().len() ==> #[trigger] self@[self.keys()[i]]
                == self.values()[i],
    {
        let keys = self.keys();
        assert(self@.dom() =~= keys.to_set());
        assert forall|i: int, j: int| 0 <= i < keys.len() && 0 <= j < keys.len() && i != j implies
            keys[i] != keys[j] by {
            lemma_key_lt_irreflexive(keys[i]);
        }
        assert(keys.no_duplicates());
        keys.unique_seq_to_set();
        assert forall|i: int| 0 <= i < keys.len() implies #[trigger] self@[keys[i]]
            == self.values()[i] by {
            lemma_sorted_index_of(keys, i);
        }
    }

    /// The keys in ascending order, each once; together they are the domain
    /// of the map.
    pub fn sorted_keys(&self) -> (ks: Vec<String>)
        ensures
            ks@.map_values(|k: String| k@) == self.keys(),
            strictly_sorted(self.keys()),
            self.keys().to_set() == self@.dom(),
    {
        proof {
            use_type_invariant(self);
            self.lemma_view_facts();
        }
        let mut ks: Vec<String> = Vec::new();
        let mut i: usize = 0;
        while i < self.entries.len()
            invariant
                i <= self.entries.len(),
                ks@.len() == i,
                forall|j: int| 0 <= j < i ==> #[trigger] ks@[j]@ == self.keys()[j],
            decreases self.entries.len() - i,
        {
            ks.push(self.entries[i].0.clone());
            i = i + 1;
        }
        assert(ks@.map_values(|k: String| k@) =~= self.keys());
        ks
    }

    /// The value stored under `key`, if any.
    pub fn get(&self, key: &str) -> (r: Option<&V>)
        ensures
            r is Some <==> self@.dom().contains(key@),
            r matches Some(v) ==> *v == self@[key@],
    {
        proof {
            use_type_invariant(self);
            self.lemma_view_facts();
        }
        let kc = chars_of(key);
        let mut i: usize = 0;
        while i < self.entries.len()
            invariant
                i <= self.entries.len(),
                kc@ == key@,
                strictly_sorted(self.keys()),
                forall|j: int| 0 <= j < i ==> self.keys()[j] != key@,
            decreases self.entries.len() - i,
        {
            let ec = chars_of(self.entries[i].0.as_str());
            if compare_chars(&ec, &kc) == KeyOrder::Equal {
                proof {
                    lemma_sorted_index_of(self.keys(), i as int);
                }
                return Some(&self.entries[i].1);
            }
            i = i + 1;
        }
        None
    }

    /// Stores `value` under `key`, giving back the value it replaces.
    pub fn insert(&mut self, key: String, value: V) -> (r: Option<V>)
        ensures
            final(self)@ == old(self)@.insert(key@, value),
            r is Some <==> old(self)@.dom().contains(key@),
            r matches Some(v) ==> v == old(self)@[key@],
    {
        proof {
            use_type_invariant(&*self);
            old(self).lemma_view_facts();
        }
        let mut entries: Vec<(String, V)> = Vec::new();
        std::mem::swap(&mut entries, &mut self.entries);
        let (entries, r) = Self::insert_sorted(entries, key, value);
        self.entries = entries;
        r
    }

    fn insert_sorted(original: Vec<(String, V)>, key: String, value: V) -> (res: (Vec<(String, V)>, Option<V>))
        requires
            strictly_sorted((StringMap { entries: original }).keys()),
        ensures
            strictly_sorted((StringMap { entries: res.0 }).keys()),
            (StringMap { entries: res.0 })@ == (StringMap { entries: original })@.insert(key@, value),
            res.1 is Some <==> (StringMap { entries: original })@.dom().contains(key@),
            res.1 matches Some(v) ==> v == (StringMap { entries: original })@[key@],
    {
        let ghost old_map = StringMap { entries: original };
        let ghost old_keys = old_map.keys();
        let ghost old_values = old_map.values();
        proof {
            old_map.lemma_view_facts();
        }
        let mut entries = original;
        assert(old_keys.len() == entries.len());
        let kc = chars_of(key.as_str());
        let n = entries.len();
        let mut i: usize = 0;
        while i < n
            invariant
                n == entries.len(),
                entries@ == old_map.entries@,
                i <= n,
                kc@ == key@,
                strictly_sorted(old_keys),
                old_keys.len() == n,
                old_keys == old_map.keys(),
                old_values == old_map.values(),
                old_map == (StringMap { entries: original }),
                forall|j: int| 0 <= j < n ==> #[trigger] old_keys[j] == entries@[j].0@,
                forall|j: int| 0 <= j < i ==> key_lt(#[trigger] old_keys[j], key@),
            ensures
                i <= n,
                entries@ == old_map.entries@,
                i < n ==> key_lt(key@, old_keys[i as int]),
                forall|j: int| 0 <= j < i ==> key_lt(#[trigger] old_keys[j], key@),
            decreases n - i,
        {
            let ec = chars_of(entries[i].0.as_str());
            assert(ec@ == old_keys[i as int]);
            let order = compare_chars(&ec, &kc);
            if order == KeyOrder::Equal {
                let removed = entries.remove(i);
                entries.insert(i, (key, value));
                let ghost new_map = StringMap { entries };
                proof {
                    assert(entries@ =~= old_map.entries@.update(i as int, (key, value)));
                    old_map.lemma_view_facts();
                    assert(new_map.keys() =~= old_keys);
                    assert(new_map.values() =~= old_values.update(i as int, value));
                    lemma_sorted_index_of(old_keys, i as int);
                    new_map.lemma_view_facts();
                    assert(new_map@ =~= old_map@.insert(key@, value)) by {
                        assert forall|k: Seq<char>| #[trigger] new_map@.dom().contains(k) implies
                            new_map@[k] == old_map@.insert(key@, value)[k] by {
                            let j = old_keys.index_of(k);
                            lemma_sorted_index_of(old_keys, j);
                        }
                    }
                }
                return (entries, Some(removed.1));
            } else if order == KeyOrder::Greater {
                break;
            }
            i = i + 1;
        }
        proof {
            assert forall|j: int| i <= j < old_keys.len() implies key_lt(key@, #[trigger] old_keys[j]) by {
                if j > i {
                    lemma_key_lt_transitive(key@, old_keys[i as int], old_keys[j]);
                }
            }
            assert(!old_keys.contains(key@)) by {
                if old_keys.contains(key@) {
                    let j = old_keys.index_of(key@);
                    lemma_key_lt_irreflexive(key@);
                }
            }
        }
        entries.insert(i, (key, value));
        let ghost new_map = StringMap { entries };
        proof {
            assert(new_map.keys() =~= old_keys.insert(i as int, key@));
            assert(new_map.values() =~= old_values.insert(i as int, value));
            assert(strictly_sorted(new_map.keys())) by {
                assert forall|a: int, b: int| 0 <= a < b < new_map.keys().len() implies key_lt(
                    #[trigger] new_map.keys()[a], #[trigger] new_map.keys()[b]) by {
                    if a < i && b > i {
                        lemma_key_lt_transitive(old_keys[a], key@, old_keys[b - 1]);
                    }
                }
            }
            new_map.lemma_view_facts();
            old_map.lemma_view_facts();
            let new_keys = new_map.keys();
            assert forall|k: Seq<char>| #[trigger] new_map@.dom().contains(k) <==> (
                old_map@.dom().contains(k) || k == key@) by {
                if new_keys.contains(k) {
                    let j = new_keys.index_of(k);
                    if j < i {
                        assert(old_keys[j] == k);
                    } else if j > i {
                        assert(old_keys[j - 1] == k);
                    }
                }
                if old_keys.contains(k) {
                    let j = old_keys.index_of(k);
                    if j < i {
                        assert(new_keys[j] == k);
                    } else {
                        assert(new_keys[j + 1] == k);
                    }
                }
                if k == key@ {
                    assert(new_keys[i as int] == k);
                }
            }
            assert(new_map@ =~= old_map@.insert(key@, value)) by {
                assert forall|k: Seq<char>| #[trigger] new_map@.dom().contains(k) implies
                    new_map@[k] == old_map@.insert(key@, value)[k] by {
                    let j = new_map.keys().index_of(k);
                    lemma_sorted_index_of(new_map.keys(), j);
                    if k != key@ {
                        if j < i {
                            lemma_sorted_index_of(old_keys, j);
                        } else {
                            lemma_sorted_index_of(old_keys, j - 1);
                        }
                    }
                }
            }
        }
        (entries, None)
    }
}

} // verus!
