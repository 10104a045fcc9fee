//! Maps and sets kept in a list of fixed capacity.
pub mod map;
pub mod set;
