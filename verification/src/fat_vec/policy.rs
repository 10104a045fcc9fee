//! What the hybrid vector does when its heap storage has to grow.
use crate::fallible::error::AllocationError;
use crate::std_specs::{
    reservation_in_range,
    vec_capacity,
    vec_reserve_exact,
    vec_try_reserve_exact,
};
use vstd::prelude::*;

verus! {

/// The points at which the kinds of hybrid vector differ: how heap storage
/// is first had, how room for one more element is found, and how an explicit
/// reservation is made.
pub trait GrowthPolicy: Sized {
    /// The answer that the policy is bound to give to a request for room for
    /// `additional` more elements in a heap part that holds `len` elements
    /// of `elem_size` bytes each, if it is bound to one. Where it is `None`
    /// the allocator decides.
    spec fn owed(len: nat, additional: nat, elem_size: nat) -> Option<
        Result<(), AllocationError>,
    >;

    /// Whether `error` is one of the errors with which the policy refuses.
    spec fn refuses_with(error: AllocationError) -> bool;

    /// Whether a reservation of `additional` more elements may be asked of a
    /// heap part that holds `len` elements of `elem_size` bytes each.
    spec fn admits(len: nat, additional: nat, elem_size: nat) -> bool;

    /// Empty heap storage with room for `capacity` elements.
    fn allocate<T>(capacity: usize) -> (r: Result<Vec<T>, AllocationError>)
        requires
            Self::admits(0, capacity as nat, vstd::layout::size_of::<T>()),
        ensures
            r matches Ok(spill) ==> spill@ == Seq::<T>::empty(),
            r matches Err(error) ==> Self::refuses_with(error),
            Self::owed(0, capacity as nat, vstd::layout::size_of::<T>()) matches Some(
                answer,
            ) ==> match answer {
                Ok(()) => r is Ok,
                Err(error) => r matches Err(e) && e == error,
            },
    ;

    /// Runs before an element is appended to `spill`. A refusal means the
    /// element must not be appended. The elements of `spill` stay as they are.
    fn make_room<T>(spill: &mut Vec<T>) -> (r: Result<(), AllocationError>)
        ensures
            final(spill)@ == old(spill)@,
            r matches Err(error) ==> Self::refuses_with(error),
            Self::owed(old(spill)@.len(), 1, vstd::layout::size_of::<T>()) matches Some(answer)
                ==> r == answer,
    ;

    /// Makes room in `spill` for `additional` more elements. The elements of
    /// `spill` stay as they are.
    fn reserve<T>(spill: &mut Vec<T>, additional: usize) -> (r: Result<(), AllocationError>)
        requires
            Self::admits(old(spill)@.len(), additional as nat, vstd::layout::size_of::<T>()),
        ensures
            final(spill)@ == old(spill)@,
            r matches Err(error) ==> Self::refuses_with(error),
            Self::owed(
                old(spill)@.len(),
                additional as nat,
                vstd::layout::size_of::<T>(),
            ) matches Some(answer) ==> r == answer,
    ;
}

/// Whether a vector of `len` elements of type `T` can be asked to make room
/// for `additional` more without the request itself being out of range.
pub fn reservation_fits<T>(len: usize, additional: usize) -> (r: bool)
    ensures
        r == reservation_in_range(len as nat, additional as nat, vstd::layout::size_of::<T>()),
{
    match len.checked_add(additional) {
        None => false,
        Some(total) => match total.checked_mul(core::mem::size_of::<T>()) {
            None => false,
            Some(bytes) => bytes <= isize::MAX as usize,
        },
    }
}

/// Reserve first, and report a failed reservation to the caller. A request
/// for no more room is granted; a request that is out of range is refused
/// by the collection itself, before the allocator is asked; any other
/// request is up to the allocator.
#[derive(Debug, Clone, Copy, PartialEq, Eq, Hash)]
pub struct Fallible;

/// Let the standard vector grow its storage, and let the process abort if
/// the memory cannot be had.
#[derive(Debug, Clone, Copy, PartialEq, Eq, Hash)]
pub struct Panicking;

/// Like [`Fallible`], with a budget: the heap part may hold at most `LIMIT`
/// elements, and a request that would pass the budget is refused as out of
/// memory without the allocator being asked.
#[derive(Debug, Clone, Copy, PartialEq, Eq, Hash)]
pub struct Capped<const LIMIT: usize>;

impl GrowthPolicy for Fallible {
    open spec fn owed(len: nat, additional: nat, elem_size: nat) -> Option<
        Result<(), AllocationError>,
    > {
        if additional == 0 {
            Some(Ok(()))
        } else if !reservation_in_range(len, additional, elem_size) {
            Some(Err(AllocationError::CollectionRefused))
        } else {
            None
        }
    }

    open spec fn refuses_with(error: AllocationError) -> bool {
        error.is_refused_reservation()
    }

    open spec fn admits(len: nat, additional: nat, elem_size: nat) -> bool {
        true
    }

    fn allocate<T>(capacity: usize) -> (r: Result<Vec<T>, AllocationError>) {
        let mut spill: Vec<T> = Vec::new();
        match Self::reserve(&mut spill, capacity) {
            Ok(()) => Ok(spill),
            Err(error) => Err(error),
        }
    }

    fn make_room<T>(spill: &mut Vec<T>) -> (r: Result<(), AllocationError>) {
        if !reservation_fits::<T>(spill.len(), 1) {
            Err(AllocationError::CollectionRefused)
        } else if vec_capacity(spill) <= spill.len() {
            Self::reserve(spill, 1)
        } else {
            Ok(())
        }
    }

    fn reserve<T>(spill: &mut Vec<T>, additional: usize) -> (r: Result<(), AllocationError>) {
        if additional > 0 && !reservation_fits::<T>(spill.len(), additional) {
            Err(AllocationError::CollectionRefused)
        } else {
            match vec_try_reserve_exact(spill, additional) {
                Ok(()) => Ok(()),
                Err(error) => Err(AllocationError::from(error)),
            }
        }
    }
}

impl GrowthPolicy for Panicking {
    open spec fn owed(len: nat, additional: nat, elem_size: nat) -> Option<
        Result<(), AllocationError>,
    > {
        Some(Ok(()))
    }

    open spec fn refuses_with(error: AllocationError) -> bool {
        false
    }

    open spec fn admits(len: nat, additional: nat, elem_size: nat) -> bool {
        reservation_in_range(len, additional, elem_size)
    }

    fn allocate<T>(capacity: usize) -> (r: Result<Vec<T>, AllocationError>) {
        let mut spill: Vec<T> = Vec::new();
        vec_reserve_exact(&mut spill, capacity);
        Ok(spill)
    }

    fn make_room<T>(spill: &mut Vec<T>) -> (r: Result<(), AllocationError>) {
        Ok(())
    }

    fn reserve<T>(spill: &mut Vec<T>, additional: usize) -> (r: Result<(), AllocationError>) {
        vec_reserve_exact(spill, additional);
        Ok(())
    }
}

impl<const LIMIT: usize> GrowthPolicy for Capped<LIMIT> {
    open spec fn owed(len: nat, additional: nat, elem_size: nat) -> Option<
        Result<(), AllocationError>,
    > {
        if len + additional > LIMIT {
            Some(Err(AllocationError::OOM))
        } else {
            Fallible::owed(len, additional, elem_size)
        }
    }

    open spec fn refuses_with(error: AllocationError) -> bool {
        error == AllocationError::OOM || Fallible::refuses_with(error)
    }

    open spec fn admits(len: nat, additional: nat, elem_size: nat) -> bool {
        true
    }

    fn allocate<T>(capacity: usize) -> (r: Result<Vec<T>, AllocationError>) {
        if capacity > LIMIT {
            Err(AllocationError::OOM)
        } else {
            Fallible::allocate(capacity)
        }
    }

    fn make_room<T>(spill: &mut Vec<T>) -> (r: Result<(), AllocationError>) {
        if spill.len() >= LIMIT {
            Err(AllocationError::OOM)
        } else {
            Fallible::make_room(spill)
        }
    }

    fn reserve<T>(spill: &mut Vec<T>, additional: usize) -> (r: Result<(), AllocationError>) {
        if additional > LIMIT || spill.len() > LIMIT - additional {
            Err(AllocationError::OOM)
        } else {
            Fallible::reserve(spill, additional)
        }
    }
}

} // verus!
