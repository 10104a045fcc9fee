//! A map kept in a double-ended queue.
use crate::borrow::each_mut;
use crate::fallible::error::AllocationError;
use crate::fallible::FallibleLinearMap;
use crate::fat_vec::policy::{Fallible, GrowthPolicy, Panicking};
use crate::linear_map::{replace_value, LinearMap};
use crate::panicking::PanickingLinearMap;
use crate::std_specs::{deque_capacity, deque_get_mut, deque_make_contiguous, deque_try_reserve};
use core::marker::PhantomData;
use std::collections::VecDeque;
use vstd::prelude::*;

verus! {

/// A map backed by a `VecDeque`: useful for small collections whose size
/// can change. `P` says what an insertion does when the deque has to grow.
#[derive(Debug)]
pub struct DequeMap<K: Eq, V: PartialEq, P: GrowthPolicy> {
    vecdeque: VecDeque<(K, V)>,
    policy: PhantomData<P>,
}

impl<K: Eq, V: PartialEq, P: GrowthPolicy> DequeMap<K, V, P> {
    /// A new, empty map.
    pub fn new() -> (r: Self)
        ensures
            r.wf(),
            r.entries() == Seq::<(K, V)>::empty(),
    {
        DequeMap { vecdeque: VecDeque::new(), policy: PhantomData }
    }

    /// A map of the entries of `vecdeque`, in its order. Where two entries
    /// have equal keys, only the first of them is ever found by its key.
    pub fn from_vecdeque_unchecked(vecdeque: VecDeque<(K, V)>) -> (r: Self)
        ensures
            r.wf(),
            r.entries() == vecdeque@,
    {
        DequeMap { vecdeque, policy: PhantomData }
    }
}

impl<K: Eq, V: PartialEq> DequeMap<K, V, Panicking> {
    /// A new, empty map with room for `capacity` entries.
    pub fn with_capacity(capacity: usize) -> (r: Self)
        ensures
            r.wf(),
            r.entries() == Seq::<(K, V)>::empty(),
    {
        DequeMap { vecdeque: VecDeque::with_capacity(capacity), policy: PhantomData }
    }
}

impl<K: Eq, V: PartialEq> DequeMap<K, V, Fallible> {
    /// A new, empty map with room for `capacity` entries.
    pub fn with_capacity(capacity: usize) -> (r: Result<Self, AllocationError>)
        ensures
            r matches Ok(map) && map.wf() && map.entries() == Seq::<(K, V)>::empty(),
    {
        Ok(DequeMap { vecdeque: VecDeque::with_capacity(capacity), policy: PhantomData })
    }
}

impl<K: Eq, V: PartialEq, P: GrowthPolicy> LinearMap<K, V> for DequeMap<K, V, P> {
    type Backing = VecDeque<(K, V)>;

    closed spec fn entries(&self) -> Seq<(K, V)> {
        self.vecdeque@
    }

    closed spec fn wf(&self) -> bool {
        true
    }

    fn len(&self) -> (r: usize) {
        self.vecdeque.len()
    }

    fn nth_entry<'a>(&'a self, index: usize) -> (r: Option<&'a (K, V)>)
        where
            K: 'a,
            V: 'a,
    {
        if index < self.vecdeque.len() {
            Some(&self.vecdeque[index])
        } else {
            None
        }
    }

    fn nth_entry_mut<'a>(&'a mut self, index: usize) -> (r: Option<&'a mut (K, V)>)
        where
            K: 'a,
            V: 'a,
    {
        deque_get_mut(&mut self.vecdeque, index)
    }

    fn iter_mut<'a>(&'a mut self) -> (r: Vec<&'a mut (K, V)>)
        where
            K: 'a,
            V: 'a,
    {
        each_mut(deque_make_contiguous(&mut self.vecdeque))
    }

    fn remove_entry(&mut self, key: &K) -> (r: Option<(K, V)>) {
        match self.position(key) {
            Some(i) => self.vecdeque.remove(i),
            None => None,
        }
    }

    fn into_inner(self) -> (r: VecDeque<(K, V)>)
        ensures
            r@ == self.entries(),
    {
        self.vecdeque
    }
}

impl<K: Eq, V: PartialEq> PanickingLinearMap<K, V> for DequeMap<K, V, Panicking> {
    fn insert(&mut self, key: K, value: V) -> (r: Option<V>) {
        match self.position(&key) {
            Some(i) => {
                let entry = deque_get_mut(&mut self.vecdeque, i).unwrap();
                Some(replace_value(entry, value))
            },
            None => {
                self.vecdeque.push_back((key, value));
                None
            },
        }
    }
}

impl<K: Eq, V: PartialEq> FallibleLinearMap<K, V> for DequeMap<K, V, Fallible> {
    type InsertionError = AllocationError;

    fn insert(&mut self, key: K, value: V) -> (r: Result<Option<V>, AllocationError>) {
        match self.position(&key) {
            Some(i) => {
                let entry = deque_get_mut(&mut self.vecdeque, i).unwrap();
                Ok(Some(replace_value(entry, value)))
            },
            None => {
                if deque_capacity(&self.vecdeque) <= self.vecdeque.len() {
                    match deque_try_reserve(&mut self.vecdeque, 1) {
                        Ok(()) => {},
                        Err(error) => {
                            return Err(AllocationError::from(error));
                        },
                    }
                }
                self.vecdeque.push_back((key, value));
                Ok(None)
            },
        }
    }
}

} // verus!
