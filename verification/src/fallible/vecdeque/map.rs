//! The map kept in a double-ended queue that reports a failed allocation.
use crate::fat_vec::policy::Fallible;
use vstd::prelude::*;

verus! {

/// A map backed by a `VecDeque`: an insertion that finds no room returns an
/// error.
pub type DequeMap<K, V> = crate::vecdeque::map::DequeMap<K, V, Fallible>;

} // verus!
