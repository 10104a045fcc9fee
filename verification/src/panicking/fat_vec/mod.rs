//! The hybrid vector that aborts the process where memory cannot be had.
pub mod map;
pub mod set;

use crate::fat_vec::policy::Panicking;
use crate::std_specs::reservation_in_range;
use vstd::prelude::*;

verus! {

/// A vector which keeps its first `STACK_CAPACITY` elements inline and the
/// rest on the heap. Where the heap part cannot grow the process aborts.
pub type FatVec<T, const STACK_CAPACITY: usize> = crate::fat_vec::FatVec<
    T,
    STACK_CAPACITY,
    Panicking,
>;

/// A cursor over the elements of a [`FatVec`].
pub type Iter<'a, T, const STACK_CAPACITY: usize> = crate::fat_vec::iter::Iter<
    'a,
    T,
    STACK_CAPACITY,
    Panicking,
>;

/// A [`FatVec`] that is being taken apart.
pub type IntoIter<T, const STACK_CAPACITY: usize> = crate::fat_vec::iter::IntoIter<
    T,
    STACK_CAPACITY,
    Panicking,
>;

impl<T, const STACK_CAPACITY: usize> FatVec<T, STACK_CAPACITY> {
    /// A new, empty vector with room for `capacity` elements in all: what
    /// `STACK_CAPACITY` does not cover is reserved on the heap.
    pub fn with_capacity(capacity: usize) -> (r: Self)
        requires
            reservation_in_range(
                0,
                Self::heap_share(capacity as nat),
                vstd::layout::size_of::<T>(),
            ),
        ensures
            r.wf(),
            r@ == Seq::<T>::empty(),
    {
        Self::try_with_capacity(capacity).unwrap()
    }

    /// A new, empty vector with room for `capacity` elements on the heap.
    pub fn with_heap_capacity(capacity: usize) -> (r: Self)
        requires
            reservation_in_range(0, capacity as nat, vstd::layout::size_of::<T>()),
        ensures
            r.wf(),
            r@ == Seq::<T>::empty(),
    {
        Self::try_with_heap_capacity(capacity).unwrap()
    }

    /// Appends `value`: inline below `STACK_CAPACITY` elements, onto the
    /// heap otherwise.
    pub fn push(&mut self, value: T)
        requires
            old(self).wf(),
            old(self)@.len() < usize::MAX,
        ensures
            final(self).wf(),
            final(self)@ == old(self)@.push(value),
    {
        let pushed = self.try_push(value);
    }

    /// Makes room on the heap for `additional` more elements. The elements
    /// are the same afterwards.
    pub fn reserve(&mut self, additional: usize)
        requires
            old(self).wf(),
            reservation_in_range(
                old(self).heap_view().len(),
                additional as nat,
                vstd::layout::size_of::<T>(),
            ),
        ensures
            final(self).wf(),
            final(self)@ == old(self)@,
    {
        let reserved = self.try_reserve(additional);
    }
}

} // verus!
