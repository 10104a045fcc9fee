//! The map kept in a hybrid vector that aborts where memory cannot be had.
use crate::fat_vec::policy::Panicking;
use vstd::prelude::*;

verus! {

/// A map backed by a [`FatVec`](super::FatVec) that grows on its own.
pub type FatMap<K, V, const STACK_CAPACITY: usize> = crate::fat_vec::map::FatMap<
    K,
    V,
    STACK_CAPACITY,
    Panicking,
>;

} // verus!
