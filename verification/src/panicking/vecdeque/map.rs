//! The map kept in a double-ended queue that aborts where memory cannot be had.
use crate::fat_vec::policy::Panicking;
use vstd::prelude::*;

verus! {

/// A map backed by a `VecDeque` that grows on its own.
pub type DequeMap<K, V> = crate::vecdeque::map::DequeMap<K, V, Panicking>;

} // verus!
