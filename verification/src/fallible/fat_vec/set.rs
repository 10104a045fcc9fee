//! The set kept in a hybrid vector that reports a failed allocation.
use crate::fat_vec::policy::Fallible;
use vstd::prelude::*;

verus! {

/// A set backed by a [`FatMap`](super::map::FatMap): an insertion that finds
/// no room on the heap returns an error.
pub type FatSet<T, const STACK_CAPACITY: usize> = crate::fat_vec::set::FatSet<
    T,
    STACK_CAPACITY,
    Fallible,
>;

} // verus!
