//! Linear collections: sequences, maps and sets over contiguous storage,
//! with a vector that keeps its first elements inline and spills the rest
//! onto the heap.
pub mod array;
pub mod array_vec;
pub mod borrow;
pub mod fallible;
pub mod fat_vec;
pub mod linear_map;
pub mod linear_set;
pub mod literal;
pub mod panicking;
pub mod stack_list;
pub mod std_specs;
pub mod vec;
pub mod vecdeque;
