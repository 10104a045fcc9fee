//! A set kept in a list of fixed capacity.
use super::map::StackMap;
use crate::fallible::FallibleLinearSet;
use crate::linear_map::LinearMap;
use crate::linear_set::LinearSet;
use vstd::prelude::*;

verus! {

/// A set backed by a `StackMap` where the value for each key is `()`: it
/// lives inline and holds at most `CAPACITY` elements.
#[derive(Debug)]
pub struct StackSet<T: Eq, const CAPACITY: usize> {
    map: StackMap<T, (), CAPACITY>,
}

impl<T: Eq, const CAPACITY: usize> StackSet<T, CAPACITY> {
    /// A new, empty set.
    pub fn new() -> (r: Self)
        ensures
            r.backing().wf(),
            r.backing().entries() == Seq::<(T, ())>::empty(),
    {
        StackSet { map: StackMap::new() }
    }
}

impl<T: Eq, const CAPACITY: usize> LinearSet<T> for StackSet<T, CAPACITY> {
    type Backing = StackMap<T, (), CAPACITY>;

    closed spec fn backing(&self) -> StackMap<T, (), CAPACITY> {
        self.map
    }

    fn map(&self) -> (r: &StackMap<T, (), CAPACITY>) {
        &self.map
    }

    fn map_mut(&mut self) -> (r: &mut StackMap<T, (), CAPACITY>) {
        &mut self.map
    }
}

impl<T: Eq, const CAPACITY: usize> FallibleLinearSet<T> for StackSet<T, CAPACITY> {

}

} // verus!
