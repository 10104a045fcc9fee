//! Maps kept as a sequence of key-value pairs and searched front to back.
//!
//! A key is looked up by comparing it with `==` against the key of each
//! entry in turn; the first entry that matches is the one the map means.
//! What the operations promise of a lookup therefore holds for key types
//! whose `==` is the one Verus knows (`obeys_eq_spec`).
use crate::borrow::{firsts_mut, seconds_mut};
use vstd::prelude::*;
use vstd::std_specs::cmp::PartialEqSpec;

verus! {

/// Entry `i` is the first one whose key equals `key`.
pub open spec fn is_first_match<K: PartialEq, V>(entries: Seq<(K, V)>, key: K, i: int) -> bool {
    &&& 0 <= i < entries.len()
    &&& entries[i].0.eq_spec(&key)
    &&& forall|j: int| 0 <= j < i ==> !(#[trigger] entries[j]).0.eq_spec(&key)
}

/// The index of the first entry whose key equals `key`, if there is one.
pub open spec fn first_match<K: PartialEq, V>(entries: Seq<(K, V)>, key: K) -> Option<int> {
    if exists|i: int| is_first_match(entries, key, i) {
        Some(choose|i: int| is_first_match(entries, key, i))
    } else {
        None
    }
}

/// Some entry holds a value equal to `value`.
pub open spec fn holds_value<K, V: PartialEq>(entries: Seq<(K, V)>, value: V) -> bool {
    exists|i: int| 0 <= i < entries.len() && (#[trigger] entries[i]).1.eq_spec(&value)
}

/// No two entries have equal keys.
pub open spec fn keys_distinct<K: PartialEq, V>(entries: Seq<(K, V)>) -> bool {
    forall|i: int, j: int|
        0 <= i < j < entries.len() ==> !(#[trigger] entries[i]).0.eq_spec(&(#[trigger] entries[j]).0)
}

/// The entries with the value at index `i` replaced.
pub open spec fn with_value<K, V>(entries: Seq<(K, V)>, i: int, value: V) -> Seq<(K, V)> {
    entries.update(i, (entries[i].0, value))
}

/// What the entries are after `key` is given `value`: the first entry with
/// that key gets the value, and where there is none a new entry is appended.
pub open spec fn after_insert<K: PartialEq, V>(entries: Seq<(K, V)>, key: K, value: V) -> Seq<
    (K, V),
> {
    match first_match(entries, key) {
        Some(i) => with_value(entries, i, value),
        None => entries.push((key, value)),
    }
}

/// What the entries are after the value of `key` is replaced: the first
/// entry with that key gets the value, and where there is none nothing changes.
pub open spec fn after_replace<K: PartialEq, V>(entries: Seq<(K, V)>, key: K, value: V) -> Seq<
    (K, V),
> {
    match first_match(entries, key) {
        Some(i) => with_value(entries, i, value),
        None => entries,
    }
}

/// What the entries are after the entry of `key` is removed: the first entry
/// with that key leaves, and where there is none nothing changes.
pub open spec fn after_remove<K: PartialEq, V>(entries: Seq<(K, V)>, key: K) -> Seq<(K, V)> {
    match first_match(entries, key) {
        Some(i) => entries.remove(i),
        None => entries,
    }
}

/// What the entries are after each of `items` in turn has replaced the value
/// of its key.
pub open spec fn after_merge<K: PartialEq, V>(entries: Seq<(K, V)>, items: Seq<(K, V)>) -> Seq<
    (K, V),
>
    decreases items.len(),
{
    if items.len() == 0 {
        entries
    } else {
        after_replace(after_merge(entries, items.drop_last()), items.last().0, items.last().1)
    }
}

/// The entries that pair the key of each of `items` with the value at the
/// same index of `values`.
pub open spec fn keys_with<K, V>(items: Seq<(K, V)>, values: Seq<V>) -> Seq<(K, V)> {
    Seq::new(items.len(), |i: int| (items[i].0, values[i]))
}

/// The first match is the one index that matches with no match before it.
pub proof fn lemma_first_match_found<K: PartialEq, V>(entries: Seq<(K, V)>, key: K, i: int)
    requires
        is_first_match(entries, key, i),
    ensures
        first_match(entries, key) == Some(i),
{
    let c = choose|c: int| is_first_match(entries, key, c);
    if c < i {
        assert(!entries[c].0.eq_spec(&key));
    }
    if i < c {
        assert(!entries[i].0.eq_spec(&key));
    }
}

/// There is no first match where no entry matches.
pub proof fn lemma_first_match_absent<K: PartialEq, V>(entries: Seq<(K, V)>, key: K)
    requires
        forall|j: int| 0 <= j < entries.len() ==> !(#[trigger] entries[j]).0.eq_spec(&key),
    ensures
        first_match(entries, key) is None,
{
}

/// A first match, where there is one, is an index of an entry with that key.
pub proof fn lemma_first_match_is_match<K: PartialEq, V>(entries: Seq<(K, V)>, key: K)
    ensures
        match first_match(entries, key) {
            Some(i) => is_first_match(entries, key, i),
            None => forall|j: int|
                0 <= j < entries.len() ==> !(#[trigger] entries[j]).0.eq_spec(&key),
        },
{
    if first_match(entries, key) is None {
        assert forall|j: int| 0 <= j < entries.len() implies !(#[trigger] entries[j]).0.eq_spec(
            &key,
        ) by {
            if entries[j].0.eq_spec(&key) {
                lemma_some_match_has_first(entries, key, j);
            }
        }
    }
}

/// Where some entry matches, some entry is the first to match.
pub proof fn lemma_some_match_has_first<K: PartialEq, V>(entries: Seq<(K, V)>, key: K, j: int)
    requires
        0 <= j < entries.len(),
        entries[j].0.eq_spec(&key),
    ensures
        exists|i: int| is_first_match(entries, key, i),
    decreases j,
{
    if exists|k: int| 0 <= k < j && (#[trigger] entries[k]).0.eq_spec(&key) {
        let k = choose|k: int| 0 <= k < j && (#[trigger] entries[k]).0.eq_spec(&key);
        lemma_some_match_has_first(entries, key, k);
    } else {
        assert(is_first_match(entries, key, j));
    }
}

/// A key that was given a value is found with that value, provided that
/// the key equals itself.
pub proof fn lemma_insert_then_found<K: PartialEq, V>(entries: Seq<(K, V)>, key: K, value: V)
    requires
        key.eq_spec(&key),
    ensures
        first_match(after_insert(entries, key, value), key) matches Some(i) && after_insert(
            entries,
            key,
            value,
        )[i].1 == value,
        first_match(entries, key) matches Some(i) ==> first_match(
            after_insert(entries, key, value),
            key,
        ) == Some(i),
        first_match(entries, key) is None ==> first_match(
            after_insert(entries, key, value),
            key,
        ) == Some(entries.len() as int),
{
    lemma_first_match_is_match(entries, key);
    let after = after_insert(entries, key, value);
    match first_match(entries, key) {
        Some(i) => {
            assert(is_first_match(after, key, i));
            lemma_first_match_found(after, key, i);
        },
        None => {
            assert(is_first_match(after, key, entries.len() as int));
            lemma_first_match_found(after, key, entries.len() as int);
        },
    }
}

/// Giving a key a value leaves the map with one entry more where the key
/// was not in it, and with as many as before where it was.
pub proof fn lemma_insert_len<K: PartialEq, V>(entries: Seq<(K, V)>, key: K, value: V)
    ensures
        after_insert(entries, key, value).len() == if first_match(entries, key) is Some {
            entries.len()
        } else {
            entries.len() + 1
        },
{
    lemma_first_match_is_match(entries, key);
}

/// Giving a key a value keeps the keys distinct.
pub proof fn lemma_insert_keeps_keys_distinct<K: PartialEq, V>(
    entries: Seq<(K, V)>,
    key: K,
    value: V,
)
    requires
        keys_distinct(entries),
    ensures
        keys_distinct(after_insert(entries, key, value)),
{
    lemma_first_match_is_match(entries, key);
    let after = after_insert(entries, key, value);
    assert forall|i: int, j: int| 0 <= i < j < after.len() implies !(#[trigger] after[i]).0.eq_spec(
        &(#[trigger] after[j]).0,
    ) by {
        match first_match(entries, key) {
            Some(m) => {
                assert(after[i].0 == entries[i].0 && after[j].0 == entries[j].0);
            },
            None => {
                if j < entries.len() {
                    assert(after[i].0 == entries[i].0 && after[j].0 == entries[j].0);
                } else {
                    assert(!entries[i].0.eq_spec(&key));
                }
            },
        }
    }
}

/// Removing the entry of a key keeps the keys distinct, and takes one entry
/// away where the key was in the map.
pub proof fn lemma_remove_keeps_keys_distinct<K: PartialEq, V>(entries: Seq<(K, V)>, key: K)
    requires
        keys_distinct(entries),
    ensures
        keys_distinct(after_remove(entries, key)),
        after_remove(entries, key).len() == if first_match(entries, key) is Some {
            entries.len() - 1
        } else {
            entries.len() as int
        },
{
    lemma_first_match_is_match(entries, key);
    let after = after_remove(entries, key);
    assert forall|i: int, j: int| 0 <= i < j < after.len() implies !(#[trigger] after[i]).0.eq_spec(
        &(#[trigger] after[j]).0,
    ) by {
        match first_match(entries, key) {
            Some(m) => {
                let a = if i < m { i } else { i + 1 };
                let b = if j < m { j } else { j + 1 };
                assert(after[i] == entries[a] && after[j] == entries[b]);
                assert(!entries[a].0.eq_spec(&entries[b].0));
            },
            None => {},
        }
    }
}

/// Replacing values keeps the keys and their number, whatever the items.
pub proof fn lemma_merge_keeps_keys<K: PartialEq, V>(entries: Seq<(K, V)>, items: Seq<(K, V)>)
    ensures
        after_merge(entries, items).len() == entries.len(),
        forall|i: int|
            0 <= i < entries.len() ==> (#[trigger] after_merge(entries, items)[i]).0 == entries[i].0,
    decreases items.len(),
{
    if items.len() > 0 {
        lemma_merge_keeps_keys(entries, items.drop_last());
        lemma_first_match_is_match(after_merge(entries, items.drop_last()), items.last().0);
    }
}

/// Puts `value` in place of the value of `entry` and returns the old one.
pub fn replace_value<K, V>(entry: &mut (K, V), value: V) -> (r: V)
    ensures
        r == old(entry).1,
        *final(entry) == (old(entry).0, value),
{
    let mut value = value;
    core::mem::swap(&mut entry.1, &mut value);
    value
}

/// A map kept as a sequence of entries. This is what every such map can do
/// whatever its store and however it grows; inserting is left to the traits
/// that say what happens when the store cannot grow.
pub trait LinearMap<K: Eq, V: PartialEq>: Sized {
    /// The store that holds the entries.
    type Backing;

    /// The entries in the order in which they are searched.
    spec fn entries(&self) -> Seq<(K, V)>;

    /// What the store needs to hold of itself.
    spec fn wf(&self) -> bool;

    /// The number of entries.
    fn len(&self) -> (r: usize)
        requires
            self.wf(),
        ensures
            r == self.entries().len(),
    ;

    /// The entry at `index`, or `None` if there is no such entry.
    fn nth_entry<'a>(&'a self, index: usize) -> (r: Option<&'a (K, V)>)
        where
            K: 'a,
            V: 'a,
        requires
            self.wf(),
        ensures
            index < self.entries().len() ==> r == Some(&self.entries()[index as int]),
            index >= self.entries().len() ==> r is None,
    ;

    /// The entry at `index` for writing, or `None` if there is no such
    /// entry. What the caller leaves behind the reference is the entry at
    /// `index` afterwards; nothing else changes.
    fn nth_entry_mut<'a>(&'a mut self, index: usize) -> (r: Option<&'a mut (K, V)>)
        where
            K: 'a,
            V: 'a,
        requires
            old(self).wf(),
        ensures
            final(self).wf(),
            index >= old(self).entries().len() ==> r is None && final(self).entries() == old(self).entries(),
            index < old(self).entries().len() ==> r is Some && *r.unwrap() == old(self).entries()[index as int] && final(self).entries() == old(self).entries().update(
                index as int,
                *final(r.unwrap()),
            ),
    ;

    /// Mutable references to the entries, in order. What the caller leaves
    /// behind the references is what the map holds afterwards.
    fn iter_mut<'a>(&'a mut self) -> (r: Vec<&'a mut (K, V)>)
        where
            K: 'a,
            V: 'a,
        requires
            old(self).wf(),
        ensures
            final(self).wf(),
            r@.len() == old(self).entries().len(),
            forall|i: int| 0 <= i < r@.len() ==> *(#[trigger] r@[i]) == old(self).entries()[i],
            final(self).entries() == Seq::new(r@.len(), |i: int| *final(r@[i])),
    ;

    /// Removes the first entry whose key is `key` and returns it, or returns
    /// `None`, changing nothing, if there is no such entry.
    fn remove_entry(&mut self, key: &K) -> (r: Option<(K, V)>)
        requires
            old(self).wf(),
        ensures
            final(self).wf(),
            K::obeys_eq_spec() ==> final(self).entries() == after_remove(
                old(self).entries(),
                *key,
            ),
            K::obeys_eq_spec() ==> r == match first_match(old(self).entries(), *key) {
                Some(i) => Some(old(self).entries()[i]),
                None => None,
            },
    ;

    /// Consumes the map and returns its store.
    fn into_inner(self) -> Self::Backing;

    /// The index of the first entry whose key is `key`, if there is one.
    fn position(&self, key: &K) -> (r: Option<usize>)
        requires
            self.wf(),
        ensures
            r matches Some(i) ==> i < self.entries().len(),
            K::obeys_eq_spec() ==> match r {
                Some(i) => first_match(self.entries(), *key) == Some(i as int),
                None => first_match(self.entries(), *key) is None,
            },
    {
        let n = self.len();
        let mut i: usize = 0;
        while i < n
            invariant
                self.wf(),
                n == self.entries().len(),
                i <= n,
                K::obeys_eq_spec() ==> forall|j: int|
                    0 <= j < i ==> !(#[trigger] self.entries()[j]).0.eq_spec(key),
            decreases n - i,
        {
            let entry = self.nth_entry(i).unwrap();
            if entry.0 == *key {
                proof {
                    if K::obeys_eq_spec() {
                        lemma_first_match_found(self.entries(), *key, i as int);
                    }
                }
                return Some(i);
            }
            i += 1;
        }
        proof {
            if K::obeys_eq_spec() {
                lemma_first_match_absent(self.entries(), *key);
            }
        }
        None
    }

    /// Whether some entry has the key `key`.
    fn contains_key(&self, key: &K) -> (r: bool)
        requires
            self.wf(),
        ensures
            K::obeys_eq_spec() ==> r == first_match(self.entries(), *key).is_some(),
    {
        self.position(key).is_some()
    }

    /// Whether some entry has the value `value`.
    fn contains_value(&self, value: &V) -> (r: bool)
        requires
            self.wf(),
        ensures
            V::obeys_eq_spec() ==> r == holds_value(self.entries(), *value),
    {
        let n = self.len();
        let mut i: usize = 0;
        while i < n
            invariant
                self.wf(),
                n == self.entries().len(),
                i <= n,
                V::obeys_eq_spec() ==> forall|j: int|
                    0 <= j < i ==> !(#[trigger] self.entries()[j]).1.eq_spec(value),
            decreases n - i,
        {
            let entry = self.nth_entry(i).unwrap();
            if entry.1 == *value {
                return true;
            }
            i += 1;
        }
        false
    }

    /// The value of the first entry whose key is `key`, or `None` if there
    /// is no such entry.
    fn get<'a>(&'a self, key: &K) -> (r: Option<&'a V>)
        where
            K: 'a,
            V: 'a,
        requires
            self.wf(),
        ensures
            K::obeys_eq_spec() ==> r == match first_match(self.entries(), *key) {
                Some(i) => Some(&self.entries()[i].1),
                None => None,
            },
    {
        match self.position(key) {
            Some(i) => {
                let entry = self.nth_entry(i).unwrap();
                Some(&entry.1)
            },
            None => None,
        }
    }

    /// The value of the first entry whose key is `key`, for writing, or
    /// `None` if there is no such entry. What the caller leaves behind the
    /// reference is the value of that entry afterwards; nothing else changes.
    fn get_mut<'a>(&'a mut self, key: &K) -> (r: Option<&'a mut V>)
        where
            K: 'a,
            V: 'a,
        requires
            old(self).wf(),
        ensures
            final(self).wf(),
            K::obeys_eq_spec() ==> match first_match(old(self).entries(), *key) {
                Some(i) => r is Some && *r.unwrap() == old(self).entries()[i].1 && final(self).entries() == with_value(old(self).entries(), i, *final(r.unwrap())),
                None => r is None && final(self).entries() == old(self).entries(),
            },
    {
        match self.position(key) {
            Some(i) => {
                let entry = self.nth_entry_mut(i).unwrap();
                Some(&mut entry.1)
            },
            None => None,
        }
    }

    /// Whether the map has no entry.
    fn is_empty(&self) -> (r: bool)
        requires
            self.wf(),
        ensures
            r == (self.entries().len() == 0),
    {
        self.len() == 0
    }

    /// References to the entries, in order.
    fn iter<'a>(&'a self) -> (r: Vec<&'a (K, V)>)
        where
            K: 'a,
            V: 'a,
        requires
            self.wf(),
        ensures
            r@.len() == self.entries().len(),
            forall|i: int| 0 <= i < r@.len() ==> *(#[trigger] r@[i]) == self.entries()[i],
    {
        let n = self.len();
        let mut items: Vec<&'a (K, V)> = Vec::new();
        let mut i: usize = 0;
        while i < n
            invariant
                self.wf(),
                n == self.entries().len(),
                i <= n,
                items@.len() == i,
                forall|j: int| 0 <= j < i ==> *(#[trigger] items@[j]) == self.entries()[j],
            decreases n - i,
        {
            items.push(self.nth_entry(i).unwrap());
            i += 1;
        }
        items
    }

    /// References to the keys, in the order of the entries.
    fn keys<'a>(&'a self) -> (r: Vec<&'a K>)
        where
            K: 'a,
            V: 'a,
        requires
            self.wf(),
        ensures
            r@.len() == self.entries().len(),
            forall|i: int| 0 <= i < r@.len() ==> *(#[trigger] r@[i]) == self.entries()[i].0,
    {
        let n = self.len();
        let mut items: Vec<&'a K> = Vec::new();
        let mut i: usize = 0;
        while i < n
            invariant
                self.wf(),
                n == self.entries().len(),
                i <= n,
                items@.len() == i,
                forall|j: int| 0 <= j < i ==> *(#[trigger] items@[j]) == self.entries()[j].0,
            decreases n - i,
        {
            let entry = self.nth_entry(i).unwrap();
            items.push(&entry.0);
            i += 1;
        }
        items
    }

    /// References to the values, in the order of the entries.
    fn values<'a>(&'a self) -> (r: Vec<&'a V>)
        where
            K: 'a,
            V: 'a,
        requires
            self.wf(),
        ensures
            r@.len() == self.entries().len(),
            forall|i: int| 0 <= i < r@.len() ==> *(#[trigger] r@[i]) == self.entries()[i].1,
    {
        let n = self.len();
        let mut items: Vec<&'a V> = Vec::new();
        let mut i: usize = 0;
        while i < n
            invariant
                self.wf(),
                n == self.entries().len(),
                i <= n,
                items@.len() == i,
                forall|j: int| 0 <= j < i ==> *(#[trigger] items@[j]) == self.entries()[j].1,
            decreases n - i,
        {
            let entry = self.nth_entry(i).unwrap();
            items.push(&entry.1);
            i += 1;
        }
        items
    }

    /// Mutable references to the keys, in the order of the entries. The
    /// values stay as they are, and what the caller leaves behind the
    /// references is what the keys are afterwards.
    fn keys_mut<'a>(&'a mut self) -> (r: Vec<&'a mut K>)
        where
            K: 'a,
            V: 'a,
        requires
            old(self).wf(),
        ensures
            final(self).wf(),
            r@.len() == old(self).entries().len(),
            forall|i: int| 0 <= i < r@.len() ==> *(#[trigger] r@[i]) == old(self).entries()[i].0,
            final(self).entries() == Seq::new(
                r@.len(),
                |i: int| (*final(r@[i]), old(self).entries()[i].1),
            ),
    {
        firsts_mut(self.iter_mut())
    }

    /// Mutable references to the values, in the order of the entries. The
    /// keys stay as they are, and what the caller leaves behind the
    /// references is what the values are afterwards.
    fn values_mut<'a>(&'a mut self) -> (r: Vec<&'a mut V>)
        where
            K: 'a,
            V: 'a,
        requires
            old(self).wf(),
        ensures
            final(self).wf(),
            r@.len() == old(self).entries().len(),
            forall|i: int| 0 <= i < r@.len() ==> *(#[trigger] r@[i]) == old(self).entries()[i].1,
            final(self).entries() == Seq::new(
                r@.len(),
                |i: int| (old(self).entries()[i].0, *final(r@[i])),
            ),
    {
        seconds_mut(self.iter_mut())
    }

    /// The key of the entry at `index`, or `None` if there is no such entry.
    fn nth_key<'a>(&'a self, index: usize) -> (r: Option<&'a K>)
        where
            K: 'a,
            V: 'a,
        requires
            self.wf(),
        ensures
            index < self.entries().len() ==> r == Some(&self.entries()[index as int].0),
            index >= self.entries().len() ==> r is None,
    {
        match self.nth_entry(index) {
            Some(entry) => Some(&entry.0),
            None => None,
        }
    }

    /// The value of the entry at `index`, or `None` if there is no such entry.
    fn nth_value<'a>(&'a self, index: usize) -> (r: Option<&'a V>)
        where
            K: 'a,
            V: 'a,
        requires
            self.wf(),
        ensures
            index < self.entries().len() ==> r == Some(&self.entries()[index as int].1),
            index >= self.entries().len() ==> r is None,
    {
        match self.nth_entry(index) {
            Some(entry) => Some(&entry.1),
            None => None,
        }
    }

    /// The value of the entry at `index` for writing, or `None` if there is
    /// no such entry.
    fn nth_value_mut<'a>(&'a mut self, index: usize) -> (r: Option<&'a mut V>)
        where
            K: 'a,
            V: 'a,
        requires
            old(self).wf(),
        ensures
            final(self).wf(),
            index >= old(self).entries().len() ==> r is None && final(self).entries() == old(self).entries(),
            index < old(self).entries().len() ==> r is Some && *r.unwrap() == old(self).entries()[index as int].1 && final(self).entries() == with_value(
                old(self).entries(),
                index as int,
                *final(r.unwrap()),
            ),
    {
        match self.nth_entry_mut(index) {
            Some(entry) => Some(&mut entry.1),
            None => None,
        }
    }

    /// The key of the entry at `index` for writing, or `None` if there is no
    /// such entry.
    fn nth_key_mut<'a>(&'a mut self, index: usize) -> (r: Option<&'a mut K>)
        where
            K: 'a,
            V: 'a,
        requires
            old(self).wf(),
        ensures
            final(self).wf(),
            index >= old(self).entries().len() ==> r is None && final(self).entries() == old(self).entries(),
            index < old(self).entries().len() ==> r is Some && *r.unwrap() == old(self).entries()[index as int].0 && final(self).entries() == old(self).entries().update(
                index as int,
                (*final(r.unwrap()), old(self).entries()[index as int].1),
            ),
    {
        match self.nth_entry_mut(index) {
            Some(entry) => Some(&mut entry.0),
            None => None,
        }
    }

    /// Removes the first entry whose key is `key` and returns its value, or
    /// returns `None`, changing nothing, if there is no such entry.
    fn remove(&mut self, key: &K) -> (r: Option<V>)
        requires
            old(self).wf(),
        ensures
            final(self).wf(),
            K::obeys_eq_spec() ==> final(self).entries() == after_remove(
                old(self).entries(),
                *key,
            ),
            K::obeys_eq_spec() ==> r == match first_match(old(self).entries(), *key) {
                Some(i) => Some(old(self).entries()[i].1),
                None => None,
            },
    {
        match self.remove_entry(key) {
            Some(entry) => Some(entry.1),
            None => None,
        }
    }

    /// Gives the first entry whose key is `key` the value `value`. Where
    /// there is no such entry nothing changes and `value` is dropped.
    fn replace(&mut self, key: &K, value: V)
        requires
            old(self).wf(),
        ensures
            final(self).wf(),
            K::obeys_eq_spec() ==> final(self).entries() == after_replace(
                old(self).entries(),
                *key,
                value,
            ),
    {
        match self.get_mut(key) {
            Some(slot) => {
                *slot = value;
            },
            None => {},
        }
    }

    /// For each of `items` in turn, gives the first entry with the key of
    /// the item a clone of the value of the item. Items whose key is not in
    /// the map are passed over, so the keys of the map and their number stay
    /// as they were.
    fn merge_from_iter(&mut self, items: &[(K, V)])
        where
            V: Clone,
        requires
            old(self).wf(),
        ensures
            final(self).wf(),
            K::obeys_eq_spec() ==> exists|values: Seq<V>|
                {
                    &&& values.len() == items@.len()
                    &&& forall|i: int|
                        0 <= i < values.len() ==> cloned(items@[i].1, #[trigger] values[i])
                    &&& final(self).entries() == after_merge(
                        old(self).entries(),
                        keys_with(items@, values),
                    )
                },
    {
        let ghost mut values: Seq<V> = Seq::empty();
        let mut i: usize = 0;
        while i < items.len()
            invariant
                self.wf(),
                i <= items@.len(),
                values.len() == i,
                forall|j: int| 0 <= j < i ==> cloned(items@[j].1, #[trigger] values[j]),
                K::obeys_eq_spec() ==> self.entries() == after_merge(
                    old(self).entries(),
                    keys_with(items@.subrange(0, i as int), values),
                ),
            decreases items@.len() - i,
        {
            let item = &items[i];
            let value = item.1.clone();
            proof {
                let before = keys_with(items@.subrange(0, i as int), values);
                let after = keys_with(items@.subrange(0, i + 1), values.push(value));
                assert(after.drop_last() =~= before);
                assert(after.last() == (item.0, value));
                values = values.push(value);
            }
            self.replace(&item.0, value);
            i += 1;
        }
        proof {
            assert(items@.subrange(0, i as int) =~= items@);
        }
    }
}

} // verus!
