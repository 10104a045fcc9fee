//! Maps and sets kept in a double-ended queue.
pub mod map;
pub mod set;
