//! A set kept in a double-ended queue.
use super::map::DequeMap;
use crate::fallible::error::AllocationError;
use crate::fallible::FallibleLinearSet;
use crate::fat_vec::policy::{Fallible, GrowthPolicy, Panicking};
use crate::linear_map::LinearMap;
use crate::linear_set::LinearSet;
use crate::panicking::PanickingLinearSet;
use vstd::prelude::*;

verus! {

/// A set backed by a `DequeMap` where the value for each key is `()`.
#[derive(Debug)]
pub struct DequeSet<T: Eq, P: GrowthPolicy> {
    map: DequeMap<T, (), P>,
}

impl<T: Eq, P: GrowthPolicy> DequeSet<T, P> {
    /// A new, empty set.
    pub fn new() -> (r: Self)
        ensures
            r.backing().wf(),
            r.backing().entries() == Seq::<(T, ())>::empty(),
    {
        DequeSet { map: DequeMap::new() }
    }

    /// A set of the keys of `map`, in its order. Where two entries have equal
    /// keys, only the first of them is ever found.
    pub fn from_map_unchecked(map: DequeMap<T, (), P>) -> (r: Self)
        ensures
            r.backing() == map,
    {
        DequeSet { map }
    }
}

impl<T: Eq> DequeSet<T, Panicking> {
    /// A new, empty set with room for `capacity` elements.
    pub fn with_capacity(capacity: usize) -> (r: Self)
        ensures
            r.backing().wf(),
            r.backing().entries() == Seq::<(T, ())>::empty(),
    {
        DequeSet { map: DequeMap::<T, (), Panicking>::with_capacity(capacity) }
    }
}

impl<T: Eq> DequeSet<T, Fallible> {
    /// A new, empty set with room for `capacity` elements.
    pub fn with_capacity(capacity: usize) -> (r: Result<Self, AllocationError>)
        ensures
            r matches Ok(set) && set.backing().wf() && set.backing().entries() == Seq::<
                (T, ()),
            >::empty(),
    {
        match DequeMap::<T, (), Fallible>::with_capacity(capacity) {
            Ok(map) => Ok(DequeSet { map }),
            Err(error) => Err(error),
        }
    }
}

impl<T: Eq, P: GrowthPolicy> LinearSet<T> for DequeSet<T, P> {
    type Backing = DequeMap<T, (), P>;

    closed spec fn backing(&self) -> DequeMap<T, (), P> {
        self.map
    }

    fn map(&self) -> (r: &DequeMap<T, (), P>) {
        &self.map
    }

    fn map_mut(&mut self) -> (r: &mut DequeMap<T, (), P>) {
        &mut self.map
    }
}

impl<T: Eq> PanickingLinearSet<T> for DequeSet<T, Panicking> {

}

impl<T: Eq> FallibleLinearSet<T> for DequeSet<T, Fallible> {

}

} // verus!
