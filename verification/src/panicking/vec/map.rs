//! The map kept in a vector that aborts where memory cannot be had.
use crate::fat_vec::policy::Panicking;
use vstd::prelude::*;

verus! {

/// A map backed by a vector that grows on its own.
pub type VecMap<K, V> = crate::vec::map::VecMap<K, V, Panicking>;

} // verus!
