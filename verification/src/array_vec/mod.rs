//! The former names of the fixed-capacity list and its arena.
pub mod error;

use crate::stack_list::{RawStackList, StackList};
use vstd::prelude::*;

verus! {

/// A list growable to `CAPACITY` elements which keeps all of them inline.
pub type ArrayVec<T, const CAPACITY: usize> = StackList<T, CAPACITY>;

/// A block of `CAPACITY` slots that does not know how many are in use.
pub type RawArrayVec<T, const CAPACITY: usize> = RawStackList<T, CAPACITY>;

} // verus!
