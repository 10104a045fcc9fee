//! The set kept in a hybrid vector that aborts where memory cannot be had.
use crate::fat_vec::policy::Panicking;
use vstd::prelude::*;

verus! {

/// A set backed by a [`FatMap`](super::map::FatMap) that grows on its own.
pub type FatSet<T, const STACK_CAPACITY: usize> = crate::fat_vec::set::FatSet<
    T,
    STACK_CAPACITY,
    Panicking,
>;

} // verus!
