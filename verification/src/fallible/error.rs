//! Why an allocation was refused.
use crate::std_specs::{debug_text, occurs_in, reserve_error_debug, str_contains};
use std::collections::TryReserveError;
use vstd::prelude::*;

verus! {

/// One type for every way in which memory can fail to be had.
#[derive(Debug, Clone, Copy, PartialEq, Eq, Structural)]
pub enum AllocationError {
    /// There is no memory left to allocate.
    OOM,
    /// The allocator declined to hand out more memory.
    OSRefused,
    /// The capacity asked for is more than the collection can ever have.
    CollectionRefused,
    /// None of the above.
    Other,
}

/// Whether a failed reservation says of itself that the capacity asked for
/// was more than the collection can ever have, rather than that the
/// allocator declined: the standard library names that kind of failure
/// `CapacityOverflow`.
pub open spec fn capacity_overflowed(error: TryReserveError) -> bool {
    occurs_in("CapacityOverflow"@, debug_text(error))
}

impl AllocationError {
    /// What the error says of itself: the name of its kind.
    pub open spec fn message(&self) -> Seq<char> {
        match self {
            AllocationError::OOM => "OOM"@,
            AllocationError::OSRefused => "OSRefused"@,
            AllocationError::CollectionRefused => "CollectionRefused"@,
            AllocationError::Other => "Other"@,
        }
    }

    /// The text of the error.
    pub fn to_string(&self) -> (r: String)
        ensures
            r@ == self.message(),
    {
        match self {
            AllocationError::OOM => "OOM".to_owned(),
            AllocationError::OSRefused => "OSRefused".to_owned(),
            AllocationError::CollectionRefused => "CollectionRefused".to_owned(),
            AllocationError::Other => "Other".to_owned(),
        }
    }

    /// Whether this is one of the two errors that a failed reservation gives.
    pub open spec fn is_refused_reservation(&self) -> bool {
        *self == AllocationError::CollectionRefused || *self == AllocationError::OSRefused
    }

    /// The error that stands for a failed reservation of the given kind.
    pub open spec fn of_reservation(overflow: bool) -> AllocationError {
        if overflow {
            AllocationError::CollectionRefused
        } else {
            AllocationError::OSRefused
        }
    }

    /// Classifies a failed reservation by its kind.
    pub fn from_reservation(overflow: bool) -> (r: AllocationError)
        ensures
            r == Self::of_reservation(overflow),
    {
        if overflow {
            AllocationError::CollectionRefused
        } else {
            AllocationError::OSRefused
        }
    }
}

impl From<TryReserveError> for AllocationError {
    /// Classifies a failed reservation by what it says of itself.
    fn from(value: TryReserveError) -> (r: AllocationError) {
        let text = reserve_error_debug(&value);
        AllocationError::from_reservation(str_contains(text.as_str(), "CapacityOverflow"))
    }
}

impl vstd::std_specs::convert::FromSpecImpl<TryReserveError> for AllocationError {
    open spec fn obeys_from_spec() -> bool {
        true
    }

    open spec fn from_spec(value: TryReserveError) -> AllocationError {
        AllocationError::of_reservation(capacity_overflowed(value))
    }
}

} // verus!
