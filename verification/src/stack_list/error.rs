//! Why an element could not be added to a list of fixed capacity.
use vstd::prelude::*;

verus! {

/// The one way in which a push onto a list of fixed capacity fails.
#[derive(Clone, Copy, Debug, PartialEq, Eq, Structural)]
pub enum PushError {
    /// The list already holds as many elements as it has slots.
    WouldExceedCapacity,
}

impl PushError {
    /// What the error says of itself.
    pub open spec fn message(&self) -> Seq<char> {
        "push would exceed capacity"@
    }

    /// The text of the error.
    pub fn to_string(&self) -> (r: String)
        ensures
            r@ == self.message(),
    {
        "push would exceed capacity".to_owned()
    }
}

} // verus!
