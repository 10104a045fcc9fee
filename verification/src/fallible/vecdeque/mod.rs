//! Deque-backed collections that report a failed allocation.
pub mod map;
pub mod set;
