//! The set kept in a vector that reports a failed allocation.
use crate::fat_vec::policy::Fallible;
use vstd::prelude::*;

verus! {

/// A set backed by a [`VecMap`](super::map::VecMap): an insertion that finds
/// no room returns an error.
pub type VecSet<T> = crate::vec::set::VecSet<T, Fallible>;

} // verus!
