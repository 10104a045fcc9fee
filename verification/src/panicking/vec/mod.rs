//! Vector-backed collections that abort where memory cannot be had.
pub mod map;
pub mod set;
