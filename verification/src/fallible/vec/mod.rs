//! Vector-backed collections that report a failed allocation.
pub mod map;
pub mod set;

use crate::fallible::error::AllocationError;
use crate::fat_vec::policy::reservation_fits;
use crate::std_specs::{reservation_in_range, vec_try_reserve_exact};
use vstd::prelude::*;

verus! {

/// A vector that never grows behind the caller's back: every operation that
/// may allocate reserves first and returns the error if that fails.
#[derive(Debug)]
pub struct Vec<T> {
    inner: std::vec::Vec<T>,
}

impl<T> View for Vec<T> {
    type V = Seq<T>;

    /// The elements in index order.
    closed spec fn view(&self) -> Seq<T> {
        self.inner@
    }
}

impl<T> Vec<T> {
    /// A new, empty vector. Nothing is allocated.
    pub fn new() -> (r: Self)
        ensures
            r@ == Seq::<T>::empty(),
    {
        Vec { inner: std::vec::Vec::new() }
    }

    /// A new, empty vector with room for `capacity` elements, or the error
    /// if they cannot be reserved. Reserving none succeeds; a capacity that
    /// no vector can ever have is refused by the collection; anything else
    /// is up to the allocator.
    pub fn with_capacity(capacity: usize) -> (r: Result<Self, AllocationError>)
        ensures
            r matches Ok(v) ==> v@ == Seq::<T>::empty(),
            r matches Err(error) ==> error.is_refused_reservation(),
            capacity == 0 ==> r is Ok,
            capacity > 0 && !reservation_in_range(
                0,
                capacity as nat,
                vstd::layout::size_of::<T>(),
            ) ==> (match r {
                Err(error) => error == AllocationError::CollectionRefused,
                Ok(_) => false,
            }),
    {
        let mut v = Self::new();
        match v.reserve(capacity) {
            Ok(()) => Ok(v),
            Err(error) => Err(error),
        }
    }

    /// Appends `item`, or returns the error, leaving the vector unchanged,
    /// if room for it cannot be reserved. Where the vector already holds as
    /// many elements as a vector can ever hold, the collection refuses;
    /// otherwise the allocator decides.
    pub fn push(&mut self, item: T) -> (r: Result<(), AllocationError>)
        ensures
            match r {
                Ok(()) => final(self)@ == old(self)@.push(item),
                Err(_) => final(self)@ == old(self)@,
            },
            r matches Err(error) ==> error.is_refused_reservation(),
            !reservation_in_range(old(self)@.len(), 1, vstd::layout::size_of::<T>()) ==> r
                == Err::<(), AllocationError>(AllocationError::CollectionRefused),
    {
        match self.reserve(1) {
            Ok(()) => {
                self.inner.push(item);
                Ok(())
            },
            Err(error) => Err(error),
        }
    }

    /// The elements, in order.
    pub fn iter(&self) -> (r: &[T])
        ensures
            r@ == self@,
    {
        self.inner.as_slice()
    }

    /// Tries to make room for `additional` more elements. The elements are
    /// the same afterwards, whether it succeeded or not. Asking for no more
    /// room succeeds; asking for more than a vector can ever hold is refused
    /// by the collection; anything else is up to the allocator.
    pub fn reserve(&mut self, additional: usize) -> (r: Result<(), AllocationError>)
        ensures
            final(self)@ == old(self)@,
            r matches Err(error) ==> error.is_refused_reservation(),
            additional == 0 ==> r is Ok,
            additional > 0 && !reservation_in_range(
                old(self)@.len(),
                additional as nat,
                vstd::layout::size_of::<T>(),
            ) ==> r == Err::<(), AllocationError>(AllocationError::CollectionRefused),
    {
        if additional > 0 && !reservation_fits::<T>(self.inner.len(), additional) {
            Err(AllocationError::CollectionRefused)
        } else {
            match vec_try_reserve_exact(&mut self.inner, additional) {
                Ok(()) => Ok(()),
                Err(error) => Err(AllocationError::from(error)),
            }
        }
    }

    /// Consumes the vector and returns its elements, in order.
    pub fn into_iter(self) -> (r: std::vec::Vec<T>)
        ensures
            r@ == self@,
    {
        self.inner
    }
}

} // verus!
