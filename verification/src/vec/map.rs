//! A map kept in a vector.
use crate::borrow::each_mut;
use crate::fallible::error::AllocationError;
use crate::fallible::FallibleLinearMap;
use crate::fat_vec::policy::{Fallible, GrowthPolicy, Panicking};
use crate::linear_map::{replace_value, LinearMap};
use crate::panicking::PanickingLinearMap;
use crate::std_specs::vec_capacity;
use core::marker::PhantomData;
use vstd::prelude::*;

verus! {

/// A map backed by a vector: useful for small collections whose size can
/// change. `P` says what an insertion does when the vector has to grow.
#[derive(Debug, PartialEq, Eq, Hash)]
pub struct VecMap<K: Eq, V: PartialEq, P: GrowthPolicy> {
    vector: Vec<(K, V)>,
    policy: PhantomData<P>,
}

impl<K: Eq, V: PartialEq, P: GrowthPolicy> VecMap<K, V, P> {
    /// A new, empty map.
    pub fn new() -> (r: Self)
        ensures
            r.wf(),
            r.entries() == Seq::<(K, V)>::empty(),
    {
        VecMap { vector: Vec::new(), policy: PhantomData }
    }

    /// A map of the entries of `vector`, in its order. Where two entries
    /// have equal keys, only the first of them is ever found by its key.
    pub fn from_vec_unchecked(vector: Vec<(K, V)>) -> (r: Self)
        ensures
            r.wf(),
            r.entries() == vector@,
    {
        VecMap { vector, policy: PhantomData }
    }

    /// A new, empty map with room for `capacity` entries.
    pub fn with_capacity(capacity: usize) -> (r: Self)
        ensures
            r.wf(),
            r.entries() == Seq::<(K, V)>::empty(),
    {
        VecMap { vector: Vec::with_capacity(capacity), policy: PhantomData }
    }

    /// The entries, in order.
    pub fn as_slice(&self) -> (r: &[(K, V)])
        ensures
            r@ == self.entries(),
    {
        self.vector.as_slice()
    }
}

impl<K: Eq, V: PartialEq, P: GrowthPolicy> Default for VecMap<K, V, P> {
    /// A new, empty map.
    fn default() -> (r: Self)
        ensures
            r.wf(),
            r.entries() == Seq::<(K, V)>::empty(),
    {
        VecMap::new()
    }
}

impl<K: Eq, V: PartialEq, P: GrowthPolicy> LinearMap<K, V> for VecMap<K, V, P> {
    type Backing = Vec<(K, V)>;

    closed spec fn entries(&self) -> Seq<(K, V)> {
        self.vector@
    }

    closed spec fn wf(&self) -> bool {
        true
    }

    fn len(&self) -> (r: usize) {
        self.vector.len()
    }

    fn nth_entry<'a>(&'a self, index: usize) -> (r: Option<&'a (K, V)>)
        where
            K: 'a,
            V: 'a,
    {
        if index < self.vector.len() {
            Some(&self.vector[index])
        } else {
            None
        }
    }

    fn nth_entry_mut<'a>(&'a mut self, index: usize) -> (r: Option<&'a mut (K, V)>)
        where
            K: 'a,
            V: 'a,
    {
        if index < self.vector.len() {
            Some(&mut self.vector[index])
        } else {
            None
        }
    }

    fn iter_mut<'a>(&'a mut self) -> (r: Vec<&'a mut (K, V)>)
        where
            K: 'a,
            V: 'a,
    {
        each_mut(self.vector.as_mut_slice())
    }

    fn remove_entry(&mut self, key: &K) -> (r: Option<(K, V)>) {
        match self.position(key) {
            Some(i) => Some(self.vector.remove(i)),
            None => None,
        }
    }

    fn into_inner(self) -> (r: Vec<(K, V)>)
        ensures
            r@ == self.entries(),
    {
        self.vector
    }
}

impl<K: Eq, V: PartialEq> PanickingLinearMap<K, V> for VecMap<K, V, Panicking> {
    fn insert(&mut self, key: K, value: V) -> (r: Option<V>) {
        match self.position(&key) {
            Some(i) => Some(replace_value(&mut self.vector[i], value)),
            None => {
                self.vector.push((key, value));
                None
            },
        }
    }
}

impl<K: Eq, V: PartialEq> FallibleLinearMap<K, V> for VecMap<K, V, Fallible> {
    type InsertionError = AllocationError;

    fn insert(&mut self, key: K, value: V) -> (r: Result<Option<V>, AllocationError>) {
        match self.position(&key) {
            Some(i) => Ok(Some(replace_value(&mut self.vector[i], value))),
            None => {
                if vec_capacity(&self.vector) <= self.vector.len() {
                    match self.vector.try_reserve(1) {
                        Ok(()) => {},
                        Err(error) => {
                            return Err(AllocationError::from(error));
                        },
                    }
                }
                self.vector.push((key, value));
                Ok(None)
            },
        }
    }
}

impl<K: Eq + Clone, V: PartialEq + Clone, P: GrowthPolicy> Clone for VecMap<K, V, P> {
    /// A map of clones of the entries, in order.
    fn clone(&self) -> (r: Self)
        ensures
            r.wf(),
            r.entries().len() == self.entries().len(),
            forall|i: int|
                0 <= i < self.entries().len() ==> cloned(self.entries()[i], #[trigger] r.entries()[i]),
    {
        VecMap { vector: self.vector.clone(), policy: PhantomData }
    }
}

} // verus!
