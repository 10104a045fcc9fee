//! A set kept in a vector.
use super::map::VecMap;
use crate::fallible::FallibleLinearSet;
use crate::fat_vec::policy::{Fallible, GrowthPolicy, Panicking};
use crate::linear_map::LinearMap;
use crate::linear_set::{keys_of, LinearSet};
use crate::panicking::PanickingLinearSet;
use vstd::prelude::*;

verus! {

/// A set backed by a `VecMap` where the value for each key is `()`.
#[derive(Debug, PartialEq, Eq, Hash)]
pub struct VecSet<T: Eq, P: GrowthPolicy> {
    map: VecMap<T, (), P>,
}

impl<T: Eq, P: GrowthPolicy> VecSet<T, P> {
    /// A new, empty set.
    pub fn new() -> (r: Self)
        ensures
            r.backing().wf(),
            r.backing().entries() == Seq::<(T, ())>::empty(),
    {
        VecSet { map: VecMap::new() }
    }

    /// A new, empty set with room for `capacity` elements.
    pub fn with_capacity(capacity: usize) -> (r: Self)
        ensures
            r.backing().wf(),
            r.backing().entries() == Seq::<(T, ())>::empty(),
    {
        VecSet { map: VecMap::with_capacity(capacity) }
    }

    /// A set of the keys of `map`, in its order. Where two entries have equal
    /// keys, only the first of them is ever found.
    pub fn from_map_unchecked(map: VecMap<T, (), P>) -> (r: Self)
        ensures
            r.backing() == map,
    {
        VecSet { map }
    }

    /// The number of elements.
    pub fn len(&self) -> (r: usize)
        requires
            self.backing().wf(),
        ensures
            r == self.backing().entries().len(),
    {
        self.map.len()
    }

    /// A vector of the elements, in the order of the set.
    pub fn into_vec(self) -> (r: Vec<T>)
        requires
            self.backing().wf(),
        ensures
            r@ == keys_of(self.backing().entries()),
    {
        let ghost entries = self.map.entries();
        let mut pairs = self.map.into_inner();
        let mut reversed: Vec<T> = Vec::new();
        while pairs.len() > 0
            invariant
                pairs@.len() + reversed@.len() == entries.len(),
                pairs@ == entries.subrange(0, pairs@.len() as int),
                forall|i: int|
                    0 <= i < reversed@.len() ==> #[trigger] reversed@[i] == entries[entries.len()
                        - 1 - i].0,
            decreases pairs@.len(),
        {
            let pair = pairs.pop().unwrap();
            reversed.push(pair.0);
        }
        let mut elements: Vec<T> = Vec::new();
        while reversed.len() > 0
            invariant
                reversed@.len() + elements@.len() == entries.len(),
                forall|i: int|
                    0 <= i < reversed@.len() ==> #[trigger] reversed@[i] == entries[entries.len()
                        - 1 - i].0,
                forall|i: int| 0 <= i < elements@.len() ==> #[trigger] elements@[i] == entries[i].0,
            decreases reversed@.len(),
        {
            let element = reversed.pop().unwrap();
            elements.push(element);
        }
        assert(elements@ =~= keys_of(entries));
        elements
    }
}

impl<T: Eq, P: GrowthPolicy> Default for VecSet<T, P> {
    /// A new, empty set.
    fn default() -> (r: Self)
        ensures
            r.backing().wf(),
            r.backing().entries() == Seq::<(T, ())>::empty(),
    {
        VecSet::new()
    }
}

impl<T: Eq, P: GrowthPolicy> LinearSet<T> for VecSet<T, P> {
    type Backing = VecMap<T, (), P>;

    closed spec fn backing(&self) -> VecMap<T, (), P> {
        self.map
    }

    fn map(&self) -> (r: &VecMap<T, (), P>) {
        &self.map
    }

    fn map_mut(&mut self) -> (r: &mut VecMap<T, (), P>) {
        &mut self.map
    }
}

impl<T: Eq> PanickingLinearSet<T> for VecSet<T, Panicking> {

}

impl<T: Eq> FallibleLinearSet<T> for VecSet<T, Fallible> {

}

impl<T: Eq + Clone, P: GrowthPolicy> Clone for VecSet<T, P> {
    /// A set of clones of the elements, in order.
    fn clone(&self) -> (r: Self)
        ensures
            r.backing().wf(),
            r.backing().entries().len() == self.backing().entries().len(),
            forall|i: int|
                0 <= i < self.backing().entries().len() ==> cloned(
                    self.backing().entries()[i],
                    #[trigger] r.backing().entries()[i],
                ),
    {
        VecSet { map: self.map.clone() }
    }
}

} // verus!
