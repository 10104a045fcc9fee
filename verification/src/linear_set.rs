//! Sets kept as a map from each element to `()`.
use crate::linear_map::{first_match, LinearMap};
use vstd::prelude::*;
use vstd::std_specs::cmp::PartialEqSpec;

verus! {

/// The keys of a sequence of entries, in order.
pub open spec fn keys_of<T>(entries: Seq<(T, ())>) -> Seq<T> {
    Seq::new(entries.len(), |i: int| entries[i].0)
}

/// Giving an entry of a set the value `()` again changes nothing.
pub proof fn lemma_unit_value_is_same<T>(entries: Seq<(T, ())>, i: int)
    requires
        0 <= i < entries.len(),
    ensures
        entries.update(i, (entries[i].0, ())) == entries,
{
    let entry = entries[i];
    assert(entry.1 == ());
    assert(entry == (entry.0, entry.1));
    assert(entries.update(i, (entries[i].0, ())) =~= entries);
}

/// A set backed by a linear map whose values are all `()`. This is what
/// every such set can do however its store grows; inserting is left to the
/// traits that say what happens when the store cannot grow.
pub trait LinearSet<T: Eq>: Sized {
    /// The map type which backs this set.
    type Backing: LinearMap<T, ()>;

    /// The map that backs this set.
    spec fn backing(&self) -> Self::Backing;

    /// The map that backs this set.
    fn map(&self) -> (r: &Self::Backing)
        ensures
            *r == self.backing(),
    ;

    /// The map that backs this set, for writing.
    fn map_mut(&mut self) -> (r: &mut Self::Backing)
        ensures
            *r == old(self).backing(),
            final(self).backing() == *final(r),
    ;

    /// Whether `value` is in the set.
    fn contains(&self, value: &T) -> (r: bool)
        requires
            self.backing().wf(),
        ensures
            T::obeys_eq_spec() ==> r == first_match(self.backing().entries(), *value).is_some(),
    {
        self.map().contains_key(value)
    }

    /// Whether the set has no element.
    fn is_empty(&self) -> (r: bool)
        requires
            self.backing().wf(),
        ensures
            r == (self.backing().entries().len() == 0),
    {
        self.map().is_empty()
    }

    /// The number of elements.
    fn len(&self) -> (r: usize)
        requires
            self.backing().wf(),
        ensures
            r == self.backing().entries().len(),
    {
        self.map().len()
    }

    /// References to the elements, in the order of the backing map.
    fn values<'a>(&'a self) -> (r: Vec<&'a T>)
        where
            T: 'a,
        requires
            self.backing().wf(),
        ensures
            r@.len() == self.backing().entries().len(),
            forall|i: int|
                0 <= i < r@.len() ==> *(#[trigger] r@[i]) == self.backing().entries()[i].0,
    {
        self.map().keys()
    }

    /// Mutable references to the elements, in the order of the backing map.
    /// What the caller leaves behind the references is what the set holds
    /// afterwards.
    fn values_mut<'a>(&'a mut self) -> (r: Vec<&'a mut T>)
        where
            T: 'a,
        requires
            old(self).backing().wf(),
        ensures
            final(self).backing().wf(),
            r@.len() == old(self).backing().entries().len(),
            forall|i: int|
                0 <= i < r@.len() ==> *(#[trigger] r@[i]) == old(self).backing().entries()[i].0,
            final(self).backing().entries() == Seq::new(
                r@.len(),
                |i: int| (*final(r@[i]), old(self).backing().entries()[i].1),
            ),
    {
        self.map_mut().keys_mut()
    }

    /// Removes `value` from the set and returns the element that was equal
    /// to it, or returns `None`, changing nothing, if it is not in the set.
    fn remove(&mut self, value: &T) -> (r: Option<T>)
        requires
            old(self).backing().wf(),
        ensures
            final(self).backing().wf(),
            T::obeys_eq_spec() ==> match first_match(old(self).backing().entries(), *value) {
                Some(i) => {
                    &&& r == Some(old(self).backing().entries()[i].0)
                    &&& final(self).backing().entries() == old(self).backing().entries().remove(i)
                },
                None => {
                    &&& r is None
                    &&& final(self).backing().entries() == old(self).backing().entries()
                },
            },
    {
        match self.map_mut().remove_entry(value) {
            Some(entry) => Some(entry.0),
            None => None,
        }
    }
}

} // verus!
