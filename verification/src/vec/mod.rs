//! Maps and sets kept in a vector.
pub mod map;
pub mod set;
