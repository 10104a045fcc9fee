//! The set kept in a double-ended queue that reports a failed allocation.
use crate::fat_vec::policy::Fallible;
use vstd::prelude::*;

verus! {

/// A set backed by a [`DequeMap`](super::map::DequeMap): an insertion that
/// finds no room returns an error.
pub type DequeSet<T> = crate::vecdeque::set::DequeSet<T, Fallible>;

} // verus!
