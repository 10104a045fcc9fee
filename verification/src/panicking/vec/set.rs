//! The set kept in a vector that aborts where memory cannot be had.
use crate::fat_vec::policy::Panicking;
use vstd::prelude::*;

verus! {

/// A set backed by a [`VecMap`](super::map::VecMap) that grows on its own.
pub type VecSet<T> = crate::vec::set::VecSet<T, Panicking>;

} // verus!
