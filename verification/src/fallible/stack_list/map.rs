//! A map kept in a list of fixed capacity.
use crate::fallible::FallibleLinearMap;
use crate::linear_map::{first_match, replace_value, LinearMap};
use crate::stack_list::error::PushError;
use crate::stack_list::StackList;
use vstd::prelude::*;
use vstd::std_specs::cmp::PartialEqSpec;

verus! {

/// A map backed by a `StackList`: it lives inline and holds at most
/// `CAPACITY` entries.
#[derive(Debug)]
pub struct StackMap<K: Eq, V: PartialEq, const CAPACITY: usize> {
    stack_list: StackList<(K, V), CAPACITY>,
}

impl<K: Eq, V: PartialEq, const CAPACITY: usize> StackMap<K, V, CAPACITY> {
    /// A new, empty map.
    pub fn new() -> (r: Self)
        ensures
            r.wf(),
            r.entries() == Seq::<(K, V)>::empty(),
    {
        StackMap { stack_list: StackList::new() }
    }

    /// A well-formed map never holds more than `CAPACITY` entries.
    pub proof fn lemma_bounded(&self)
        requires
            self.wf(),
        ensures
            self.entries().len() <= CAPACITY,
    {
        self.stack_list.lemma_bounded();
    }
}

impl<K: Eq, V: PartialEq, const CAPACITY: usize> LinearMap<K, V> for StackMap<K, V, CAPACITY> {
    type Backing = StackList<(K, V), CAPACITY>;

    closed spec fn entries(&self) -> Seq<(K, V)> {
        self.stack_list@
    }

    closed spec fn wf(&self) -> bool {
        self.stack_list.wf()
    }

    fn len(&self) -> (r: usize) {
        self.stack_list.len()
    }

    fn nth_entry<'a>(&'a self, index: usize) -> (r: Option<&'a (K, V)>)
        where
            K: 'a,
            V: 'a,
    {
        self.stack_list.get(index)
    }

    fn nth_entry_mut<'a>(&'a mut self, index: usize) -> (r: Option<&'a mut (K, V)>)
        where
            K: 'a,
            V: 'a,
    {
        self.stack_list.get_mut(index)
    }

    fn iter_mut<'a>(&'a mut self) -> (r: Vec<&'a mut (K, V)>)
        where
            K: 'a,
            V: 'a,
    {
        self.stack_list.iter_mut()
    }

    fn remove_entry(&mut self, key: &K) -> (r: Option<(K, V)>) {
        match self.position(key) {
            Some(i) => self.stack_list.remove(i),
            None => None,
        }
    }

    fn into_inner(self) -> (r: StackList<(K, V), CAPACITY>)
        ensures
            r@ == self.entries(),
            r.wf() == self.wf(),
    {
        self.stack_list
    }
}

impl<K: Eq, V: PartialEq, const CAPACITY: usize> FallibleLinearMap<K, V> for StackMap<
    K,
    V,
    CAPACITY,
> {
    type InsertionError = PushError;

    /// A new entry is refused exactly when the map is full.
    fn insert(&mut self, key: K, value: V) -> (r: Result<Option<V>, PushError>)
        ensures
            K::obeys_eq_spec() && first_match(old(self).entries(), key) is None ==> (r is Ok
                <==> old(self).entries().len() < CAPACITY),
            r matches Err(error) ==> error == PushError::WouldExceedCapacity,
    {
        match self.position(&key) {
            Some(i) => {
                let entry = self.stack_list.get_mut(i).unwrap();
                Ok(Some(replace_value(entry, value)))
            },
            None => match self.stack_list.push((key, value)) {
                Ok(()) => Ok(None),
                Err(error) => Err(error),
            },
        }
    }
}

} // verus!
