//! The set kept in a double-ended queue that aborts where memory cannot be had.
use crate::fat_vec::policy::Panicking;
use vstd::prelude::*;

verus! {

/// A set backed by a [`DequeMap`](super::map::DequeMap) that grows on its own.
pub type DequeSet<T> = crate::vecdeque::set::DequeSet<T, Panicking>;

} // verus!
