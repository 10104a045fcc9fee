//! A map kept in an array.
use crate::borrow::{each_mut, seconds_mut};
use crate::linear_map::{
    first_match,
    lemma_first_match_absent,
    lemma_first_match_found,
    with_value,
};
use vstd::prelude::*;
use vstd::std_specs::cmp::PartialEqSpec;

verus! {

/// A map backed by an array: kept inline and fixed in size. Its values can
/// change; its keys and their number cannot.
#[derive(Debug)]
pub struct ArrayMap<K: Eq, V, const LENGTH: usize> {
    array: [(K, V); LENGTH],
}

impl<K: Eq, V, const LENGTH: usize> View for ArrayMap<K, V, LENGTH> {
    type V = Seq<(K, V)>;

    /// The entries in the order in which they are searched.
    closed spec fn view(&self) -> Seq<(K, V)> {
        self.array@
    }
}

impl<K: Eq, V, const LENGTH: usize> ArrayMap<K, V, LENGTH> {
    /// There are always exactly `LENGTH` entries.
    pub proof fn lemma_len(&self)
        ensures
            self@.len() == LENGTH,
    {
    }

    /// A map of the entries of `array`, in its order. Where two entries have
    /// equal keys, only the first of them is ever found by its key.
    pub fn from_array_unchecked(array: [(K, V); LENGTH]) -> (r: Self)
        ensures
            r@ == array@,
    {
        ArrayMap { array }
    }

    /// The entries, in order.
    pub fn as_slice(&self) -> (r: &[(K, V)])
        ensures
            r@ == self@,
    {
        self.array.as_slice()
    }

    /// The number of entries.
    pub fn len(&self) -> (r: usize)
        ensures
            r == LENGTH,
            r == self@.len(),
    {
        LENGTH
    }

    /// Whether the map has no entry.
    pub fn is_empty(&self) -> (r: bool)
        ensures
            r == (LENGTH == 0),
    {
        LENGTH == 0
    }

    /// The index of the first entry whose key is `key`, if there is one.
    pub fn position(&self, key: &K) -> (r: Option<usize>)
        ensures
            r matches Some(i) ==> i < LENGTH,
            K::obeys_eq_spec() ==> match r {
                Some(i) => first_match(self@, *key) == Some(i as int),
                None => first_match(self@, *key) is None,
            },
    {
        let mut i: usize = 0;
        while i < LENGTH
            invariant
                i <= LENGTH,
                self@.len() == LENGTH,
                K::obeys_eq_spec() ==> forall|j: int|
                    0 <= j < i ==> !(#[trigger] self@[j]).0.eq_spec(key),
            decreases LENGTH - i,
        {
            if self.array[i].0 == *key {
                proof {
                    if K::obeys_eq_spec() {
                        lemma_first_match_found(self@, *key, i as int);
                    }
                }
                return Some(i);
            }
            i += 1;
        }
        proof {
            if K::obeys_eq_spec() {
                lemma_first_match_absent(self@, *key);
            }
        }
        None
    }

    /// The value of the first entry whose key is `key`, or `None` if there
    /// is no such entry.
    pub fn get(&self, key: &K) -> (r: Option<&V>)
        ensures
            K::obeys_eq_spec() ==> r == match first_match(self@, *key) {
                Some(i) => Some(&self@[i].1),
                None => None,
            },
    {
        match self.position(key) {
            Some(i) => Some(&self.array[i].1),
            None => None,
        }
    }

    /// The value of the first entry whose key is `key`, for writing, or
    /// `None` if there is no such entry. What the caller leaves behind the
    /// reference is the value of that entry afterwards; nothing else changes.
    pub fn get_mut(&mut self, key: &K) -> (r: Option<&mut V>)
        ensures
            K::obeys_eq_spec() ==> match first_match(old(self)@, *key) {
                Some(i) => r is Some && *r.unwrap() == old(self)@[i].1 && final(self)@
                    == with_value(old(self)@, i, *final(r.unwrap())),
                None => r is None && final(self)@ == old(self)@,
            },
    {
        match self.position(key) {
            Some(i) => Some(&mut self.array[i].1),
            None => None,
        }
    }

    /// Consumes the map and returns its array.
    pub fn into_inner(self) -> (r: [(K, V); LENGTH])
        ensures
            r@ == self@,
    {
        self.array
    }

    /// References to the entries, in order.
    pub fn iter(&self) -> (r: Vec<&(K, V)>)
        ensures
            r@.len() == LENGTH,
            forall|i: int| 0 <= i < LENGTH ==> *(#[trigger] r@[i]) == self@[i],
    {
        let mut items: Vec<&(K, V)> = Vec::new();
        let mut i: usize = 0;
        while i < LENGTH
            invariant
                i <= LENGTH,
                self@.len() == LENGTH,
                items@.len() == i,
                forall|j: int| 0 <= j < i ==> *(#[trigger] items@[j]) == self@[j],
            decreases LENGTH - i,
        {
            items.push(&self.array[i]);
            i += 1;
        }
        items
    }

    /// References to the keys, in the order of the entries.
    pub fn keys(&self) -> (r: Vec<&K>)
        ensures
            r@.len() == LENGTH,
            forall|i: int| 0 <= i < LENGTH ==> *(#[trigger] r@[i]) == self@[i].0,
    {
        let mut items: Vec<&K> = Vec::new();
        let mut i: usize = 0;
        while i < LENGTH
            invariant
                i <= LENGTH,
                self@.len() == LENGTH,
                items@.len() == i,
                forall|j: int| 0 <= j < i ==> *(#[trigger] items@[j]) == self@[j].0,
            decreases LENGTH - i,
        {
            items.push(&self.array[i].0);
            i += 1;
        }
        items
    }

    /// References to the values, in the order of the entries.
    pub fn values(&self) -> (r: Vec<&V>)
        ensures
            r@.len() == LENGTH,
            forall|i: int| 0 <= i < LENGTH ==> *(#[trigger] r@[i]) == self@[i].1,
    {
        let mut items: Vec<&V> = Vec::new();
        let mut i: usize = 0;
        while i < LENGTH
            invariant
                i <= LENGTH,
                self@.len() == LENGTH,
                items@.len() == i,
                forall|j: int| 0 <= j < i ==> *(#[trigger] items@[j]) == self@[j].1,
            decreases LENGTH - i,
        {
            items.push(&self.array[i].1);
            i += 1;
        }
        items
    }

    /// Mutable references to the values, in the order of the entries. The
    /// keys stay as they are, and what the caller leaves behind the
    /// references is what the values are afterwards.
    pub fn values_mut(&mut self) -> (r: Vec<&mut V>)
        ensures
            r@.len() == LENGTH,
            forall|i: int| 0 <= i < LENGTH ==> *(#[trigger] r@[i]) == old(self)@[i].1,
            final(self)@ == Seq::new(LENGTH as nat, |i: int| (old(self)@[i].0, *final(r@[i]))),
    {
        let entries: &mut [(K, V)] = &mut self.array;
        seconds_mut(each_mut(entries))
    }
}

} // verus!
