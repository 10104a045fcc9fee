//! The map kept in a vector that reports a failed allocation.
use crate::fat_vec::policy::Fallible;
use vstd::prelude::*;

verus! {

/// A map backed by a vector: an insertion that finds no room returns an error.
pub type VecMap<K, V> = crate::vec::map::VecMap<K, V, Fallible>;

} // verus!
