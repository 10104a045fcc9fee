//! A map kept in a hybrid vector.
use super::policy::{Fallible, GrowthPolicy, Panicking};
use super::FatVec;
use crate::fallible::error::AllocationError;
use crate::fallible::FallibleLinearMap;
use crate::linear_map::{replace_value, LinearMap};
use crate::panicking::PanickingLinearMap;
use crate::std_specs::reservation_in_range;
use vstd::prelude::*;

verus! {

/// A map backed by a `FatVec`: up to `STACK_CAPACITY` entries live inline
/// and the rest overflow onto the heap.
#[derive(Debug, PartialEq, Eq, Hash)]
pub struct FatMap<K: Eq, V: PartialEq, const STACK_CAPACITY: usize, P: GrowthPolicy> {
    fatvec: FatVec<(K, V), STACK_CAPACITY, P>,
}

impl<K: Eq, V: PartialEq, const STACK_CAPACITY: usize, P: GrowthPolicy> FatMap<
    K,
    V,
    STACK_CAPACITY,
    P,
> {
    /// A new, empty map. Nothing is allocated on the heap.
    pub fn new() -> (r: Self)
        ensures
            r.wf(),
            r.entries() == Seq::<(K, V)>::empty(),
    {
        FatMap { fatvec: FatVec::new() }
    }

    /// A map whose inline part is full of the entries of `array`, in order.
    /// Where two entries have equal keys, only the first of them is ever
    /// found by its key.
    pub fn with_array(array: [(K, V); STACK_CAPACITY]) -> (r: Self)
        ensures
            r.wf(),
            r.entries() == array@,
    {
        FatMap { fatvec: FatVec::with_array(array) }
    }

    /// A map of the entries of `fatvec`, in its order. Where two entries
    /// have equal keys, only the first of them is ever found by its key.
    pub fn from_fatvec_unchecked(fatvec: FatVec<(K, V), STACK_CAPACITY, P>) -> (r: Self)
        requires
            fatvec.wf(),
        ensures
            r.wf(),
            r.entries() == fatvec@,
    {
        FatMap { fatvec }
    }
}

impl<K: Eq, V: PartialEq, const STACK_CAPACITY: usize> FatMap<K, V, STACK_CAPACITY, Fallible> {
    /// A new, empty map with room for `capacity` entries in all. A failure
    /// to reserve what `STACK_CAPACITY` does not cover is returned.
    pub fn with_capacity(capacity: usize) -> (r: Result<Self, AllocationError>)
        ensures
            r matches Ok(map) ==> map.wf() && map.entries() == Seq::<(K, V)>::empty(),
            capacity <= STACK_CAPACITY ==> r is Ok,
    {
        match FatVec::<(K, V), STACK_CAPACITY, Fallible>::with_capacity(capacity) {
            Ok(fatvec) => Ok(FatMap { fatvec }),
            Err(error) => Err(error),
        }
    }

    /// A new, empty map with room for `capacity` entries on the heap. A
    /// failure to reserve them is returned.
    pub fn with_heap_capacity(capacity: usize) -> (r: Result<Self, AllocationError>)
        ensures
            r matches Ok(map) ==> map.wf() && map.entries() == Seq::<(K, V)>::empty(),
            capacity == 0 ==> r is Ok,
    {
        match FatVec::<(K, V), STACK_CAPACITY, Fallible>::with_heap_capacity(capacity) {
            Ok(fatvec) => Ok(FatMap { fatvec }),
            Err(error) => Err(error),
        }
    }
}

impl<K: Eq, V: PartialEq, const STACK_CAPACITY: usize> FatMap<K, V, STACK_CAPACITY, Panicking> {
    /// A new, empty map with room for `capacity` entries in all.
    pub fn with_capacity(capacity: usize) -> (r: Self)
        requires
            reservation_in_range(
                0,
                FatVec::<(K, V), STACK_CAPACITY, Panicking>::heap_share(capacity as nat),
                vstd::layout::size_of::<(K, V)>(),
            ),
        ensures
            r.wf(),
            r.entries() == Seq::<(K, V)>::empty(),
    {
        FatMap { fatvec: FatVec::<(K, V), STACK_CAPACITY, Panicking>::with_capacity(capacity) }
    }

    /// A new, empty map with room for `capacity` entries on the heap.
    pub fn with_heap_capacity(capacity: usize) -> (r: Self)
        requires
            reservation_in_range(0, capacity as nat, vstd::layout::size_of::<(K, V)>()),
        ensures
            r.wf(),
            r.entries() == Seq::<(K, V)>::empty(),
    {
        FatMap {
            fatvec: FatVec::<(K, V), STACK_CAPACITY, Panicking>::with_heap_capacity(capacity),
        }
    }
}

impl<K: Eq, V: PartialEq, const STACK_CAPACITY: usize, P: GrowthPolicy> LinearMap<K, V> for FatMap<
    K,
    V,
    STACK_CAPACITY,
    P,
> {
    type Backing = FatVec<(K, V), STACK_CAPACITY, P>;

    closed spec fn entries(&self) -> Seq<(K, V)> {
        self.fatvec@
    }

    closed spec fn wf(&self) -> bool {
        self.fatvec.wf()
    }

    fn len(&self) -> (r: usize) {
        self.fatvec.len()
    }

    fn nth_entry<'a>(&'a self, index: usize) -> (r: Option<&'a (K, V)>)
        where
            K: 'a,
            V: 'a,
    {
        self.fatvec.get(index)
    }

    fn nth_entry_mut<'a>(&'a mut self, index: usize) -> (r: Option<&'a mut (K, V)>)
        where
            K: 'a,
            V: 'a,
    {
        self.fatvec.get_mut(index)
    }

    fn iter_mut<'a>(&'a mut self) -> (r: Vec<&'a mut (K, V)>)
        where
            K: 'a,
            V: 'a,
    {
        self.fatvec.iter_mut()
    }

    fn remove_entry(&mut self, key: &K) -> (r: Option<(K, V)>) {
        match self.position(key) {
            Some(i) => self.fatvec.remove(i),
            None => None,
        }
    }

    fn into_inner(self) -> (r: FatVec<(K, V), STACK_CAPACITY, P>)
        ensures
            r == self.store(),
    {
        self.fatvec
    }
}

impl<K: Eq, V: PartialEq, const STACK_CAPACITY: usize, P: GrowthPolicy> FatMap<
    K,
    V,
    STACK_CAPACITY,
    P,
> {
    /// The vector that holds the entries.
    pub closed spec fn store(&self) -> FatVec<(K, V), STACK_CAPACITY, P> {
        self.fatvec
    }

    /// The entries of the map are the elements of its store.
    pub proof fn lemma_store(&self)
        ensures
            self.store()@ == self.entries(),
            self.store().wf() == self.wf(),
    {
    }
}

impl<K: Eq, V: PartialEq, const STACK_CAPACITY: usize> PanickingLinearMap<K, V> for FatMap<
    K,
    V,
    STACK_CAPACITY,
    Panicking,
> {
    fn insert(&mut self, key: K, value: V) -> (r: Option<V>) {
        match self.position(&key) {
            Some(i) => {
                let entry = self.fatvec.get_mut(i).unwrap();
                Some(replace_value(entry, value))
            },
            None => {
                self.fatvec.push((key, value));
                None
            },
        }
    }
}

impl<K: Eq, V: PartialEq, const STACK_CAPACITY: usize> FallibleLinearMap<K, V> for FatMap<
    K,
    V,
    STACK_CAPACITY,
    Fallible,
> {
    type InsertionError = AllocationError;

    /// Succeeds, besides, wherever the new entry can live inline.
    fn insert(&mut self, key: K, value: V) -> (r: Result<Option<V>, AllocationError>)
        ensures
            old(self).entries().len() < STACK_CAPACITY ==> r is Ok,
    {
        match self.position(&key) {
            Some(i) => {
                let entry = self.fatvec.get_mut(i).unwrap();
                Ok(Some(replace_value(entry, value)))
            },
            None => match self.fatvec.push((key, value)) {
                Ok(()) => Ok(None),
                Err(error) => Err(error),
            },
        }
    }
}

impl<K: Eq + Clone, V: PartialEq + Clone, const STACK_CAPACITY: usize, P: GrowthPolicy> Clone for FatMap<
    K,
    V,
    STACK_CAPACITY,
    P,
> {
    /// A map of clones of the entries, in order.
    fn clone(&self) -> (r: Self)
        ensures
            self.wf() ==> r.wf(),
            r.entries().len() == self.entries().len(),
            self.wf() ==> forall|i: int|
                0 <= i < self.entries().len() ==> cloned(self.entries()[i], #[trigger] r.entries()[i]),
    {
        FatMap { fatvec: self.fatvec.clone() }
    }
}

} // verus!
