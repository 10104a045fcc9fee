//! Why an element could not be added to an `ArrayVec`.
use crate::stack_list::error::PushError;
use vstd::prelude::*;

verus! {

/// The one way in which a push onto an `ArrayVec` fails.
pub type ArrayVecError = PushError;

} // verus!
