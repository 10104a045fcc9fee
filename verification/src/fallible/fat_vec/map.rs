//! The map kept in a hybrid vector that reports a failed allocation.
use crate::fat_vec::policy::Fallible;
use vstd::prelude::*;

verus! {

/// A map backed by a [`FatVec`](super::FatVec): an insertion that finds no room
/// on the heap returns an error.
pub type FatMap<K, V, const STACK_CAPACITY: usize> = crate::fat_vec::map::FatMap<
    K,
    V,
    STACK_CAPACITY,
    Fallible,
>;

} // verus!
