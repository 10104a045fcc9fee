//! The hybrid vector that reports a failed allocation to the caller.
pub mod map;
pub mod set;

use crate::fallible::error::AllocationError;
use crate::fat_vec::policy::Fallible;
use crate::std_specs::reservation_in_range;
use vstd::prelude::*;

verus! {

/// A vector which keeps its first `STACK_CAPACITY` elements inline and the
/// rest on the heap, and returns an error where the heap part cannot grow.
pub type FatVec<T, const STACK_CAPACITY: usize> = crate::fat_vec::FatVec<
    T,
    STACK_CAPACITY,
    Fallible,
>;

/// A cursor over the elements of a [`FatVec`].
pub type Iter<'a, T, const STACK_CAPACITY: usize> = crate::fat_vec::iter::Iter<
    'a,
    T,
    STACK_CAPACITY,
    Fallible,
>;

/// A [`FatVec`] that is being taken apart.
pub type IntoIter<T, const STACK_CAPACITY: usize> = crate::fat_vec::iter::IntoIter<
    T,
    STACK_CAPACITY,
    Fallible,
>;

impl<T, const STACK_CAPACITY: usize> FatVec<T, STACK_CAPACITY> {
    /// A new, empty vector with room for `capacity` elements in all. Up to
    /// `STACK_CAPACITY` nothing is reserved and the call succeeds; beyond it
    /// the rest is reserved on the heap, and a failure to do so is returned:
    /// the collection refuses what no heap part can ever hold, and the
    /// allocator decides on the rest.
    pub fn with_capacity(capacity: usize) -> (r: Result<Self, AllocationError>)
        ensures
            r matches Ok(v) ==> v.wf() && v@ == Seq::<T>::empty(),
            r matches Err(error) ==> error.is_refused_reservation(),
            capacity <= STACK_CAPACITY ==> r is Ok,
            capacity > STACK_CAPACITY && !reservation_in_range(
                0,
                (capacity - STACK_CAPACITY) as nat,
                vstd::layout::size_of::<T>(),
            ) ==> (match r {
                Err(error) => error == AllocationError::CollectionRefused,
                Ok(_) => false,
            }),
    {
        Self::try_with_capacity(capacity)
    }

    /// A new, empty vector with room for `capacity` elements on the heap. A
    /// failure to reserve them is returned: reserving none succeeds, the
    /// collection refuses what no heap part can ever hold, and the allocator
    /// decides on the rest.
    pub fn with_heap_capacity(capacity: usize) -> (r: Result<Self, AllocationError>)
        ensures
            r matches Ok(v) ==> v.wf() && v@ == Seq::<T>::empty(),
            r matches Err(error) ==> error.is_refused_reservation(),
            capacity == 0 ==> r is Ok,
            capacity > 0 && !reservation_in_range(
                0,
                capacity as nat,
                vstd::layout::size_of::<T>(),
            ) ==> (match r {
                Err(error) => error == AllocationError::CollectionRefused,
                Ok(_) => false,
            }),
    {
        Self::try_with_heap_capacity(capacity)
    }

    /// Appends `value`. Below `STACK_CAPACITY` elements it goes inline and
    /// the call succeeds. Otherwise room for it is reserved on the heap
    /// first; where that fails, or the length has reached `usize::MAX`, the
    /// error is returned and the vector is unchanged.
    pub fn push(&mut self, value: T) -> (r: Result<(), AllocationError>)
        requires
            old(self).wf(),
        ensures
            final(self).wf(),
            match r {
                Ok(()) => final(self)@ == old(self)@.push(value),
                Err(_) => final(self)@ == old(self)@,
            },
            old(self)@.len() < STACK_CAPACITY ==> r is Ok,
            old(self)@.len() == usize::MAX ==> r == Err::<
                (),
                AllocationError,
            >(AllocationError::CollectionRefused),
            old(self)@.len() >= STACK_CAPACITY && !reservation_in_range(
                old(self).heap_view().len(),
                1,
                vstd::layout::size_of::<T>(),
            ) ==> r == Err::<(), AllocationError>(AllocationError::CollectionRefused),
            r matches Err(error) ==> error.is_refused_reservation(),
    {
        proof {
            self.lemma_packed();
        }
        self.try_push(value)
    }

    /// Tries to make room on the heap for `additional` more elements. The
    /// elements are the same afterwards, whether it succeeded or not. Asking
    /// for no more room succeeds; asking for more than the heap part can
    /// ever hold is refused by the collection; anything else is up to the
    /// allocator.
    pub fn reserve(&mut self, additional: usize) -> (r: Result<(), AllocationError>)
        requires
            old(self).wf(),
        ensures
            final(self).wf(),
            final(self)@ == old(self)@,
            r matches Err(error) ==> error.is_refused_reservation(),
            additional == 0 ==> r is Ok,
            additional > 0 && !reservation_in_range(
                old(self).heap_view().len(),
                additional as nat,
                vstd::layout::size_of::<T>(),
            ) ==> r == Err::<(), AllocationError>(AllocationError::CollectionRefused),
    {
        self.try_reserve(additional)
    }
}

} // verus!
