//! Collections kept in an array of fixed length.
pub mod map;
