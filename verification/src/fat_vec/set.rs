//! A set kept in a hybrid vector.
use super::map::FatMap;
use super::policy::{Fallible, GrowthPolicy, Panicking};
use crate::fallible::error::AllocationError;
use crate::fallible::FallibleLinearSet;
use crate::linear_map::LinearMap;
use crate::linear_set::LinearSet;
use crate::panicking::PanickingLinearSet;
use crate::std_specs::reservation_in_range;
use vstd::prelude::*;

verus! {

/// A set backed by a `FatMap` where the value for each key is `()`: up to
/// `STACK_CAPACITY` elements live inline and the rest overflow onto the heap.
#[derive(Debug, PartialEq, Eq, Hash)]
pub struct FatSet<T: Eq, const STACK_CAPACITY: usize, P: GrowthPolicy> {
    map: FatMap<T, (), STACK_CAPACITY, P>,
}

impl<T: Eq, const STACK_CAPACITY: usize, P: GrowthPolicy> FatSet<T, STACK_CAPACITY, P> {
    /// A new, empty set. Nothing is allocated on the heap.
    pub fn new() -> (r: Self)
        ensures
            r.backing().wf(),
            r.backing().entries() == Seq::<(T, ())>::empty(),
    {
        FatSet { map: FatMap::new() }
    }

    /// A set of the keys of `map`, in its order. Where two entries have equal
    /// keys, only the first of them is ever found.
    pub fn from_map_unchecked(map: FatMap<T, (), STACK_CAPACITY, P>) -> (r: Self)
        ensures
            r.backing() == map,
    {
        FatSet { map }
    }
}

impl<T: Eq, const STACK_CAPACITY: usize> FatSet<T, STACK_CAPACITY, Fallible> {
    /// A new, empty set with room for `capacity` elements on the heap. A
    /// failure to reserve them is returned.
    pub fn with_heap_capacity(capacity: usize) -> (r: Result<Self, AllocationError>)
        ensures
            r matches Ok(set) ==> set.backing().wf() && set.backing().entries() == Seq::<
                (T, ()),
            >::empty(),
            capacity == 0 ==> r is Ok,
    {
        match FatMap::<T, (), STACK_CAPACITY, Fallible>::with_heap_capacity(capacity) {
            Ok(map) => Ok(FatSet { map }),
            Err(error) => Err(error),
        }
    }
}

impl<T: Eq, const STACK_CAPACITY: usize> FatSet<T, STACK_CAPACITY, Panicking> {
    /// A new, empty set with room for `capacity` elements on the heap.
    pub fn with_heap_capacity(capacity: usize) -> (r: Self)
        requires
            reservation_in_range(0, capacity as nat, vstd::layout::size_of::<(T, ())>()),
        ensures
            r.backing().wf(),
            r.backing().entries() == Seq::<(T, ())>::empty(),
    {
        FatSet { map: FatMap::<T, (), STACK_CAPACITY, Panicking>::with_heap_capacity(capacity) }
    }
}

impl<T: Eq, const STACK_CAPACITY: usize, P: GrowthPolicy> LinearSet<T> for FatSet<
    T,
    STACK_CAPACITY,
    P,
> {
    type Backing = FatMap<T, (), STACK_CAPACITY, P>;

    closed spec fn backing(&self) -> FatMap<T, (), STACK_CAPACITY, P> {
        self.map
    }

    fn map(&self) -> (r: &FatMap<T, (), STACK_CAPACITY, P>) {
        &self.map
    }

    fn map_mut(&mut self) -> (r: &mut FatMap<T, (), STACK_CAPACITY, P>) {
        &mut self.map
    }
}

impl<T: Eq, const STACK_CAPACITY: usize> PanickingLinearSet<T> for FatSet<
    T,
    STACK_CAPACITY,
    Panicking,
> {

}

impl<T: Eq, const STACK_CAPACITY: usize> FallibleLinearSet<T> for FatSet<
    T,
    STACK_CAPACITY,
    Fallible,
> {

}

} // verus!
