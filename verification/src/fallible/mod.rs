//! Collections that report a failed allocation to the caller.
pub mod error;
pub mod fat_vec;
pub mod stack_list;
pub mod vec;
pub mod vecdeque;

pub use fat_vec::map::FatMap;
pub use fat_vec::set::FatSet;
pub use fat_vec::FatVec;
pub use stack_list::map::StackMap;
pub use stack_list::set::StackSet;
pub use vec::map::VecMap;
pub use vec::set::VecSet;
pub use vecdeque::map::DequeMap;
pub use vecdeque::set::DequeSet;

use crate::linear_map::{first_match, with_value, LinearMap};
use crate::linear_set::{lemma_unit_value_is_same, LinearSet};
use vstd::prelude::*;
use vstd::std_specs::cmp::PartialEqSpec;

verus! {

/// A map kept as a sequence of entries whose store may refuse to grow: where
/// there is no room for a new entry, the error is returned and the map is
/// unchanged.
pub trait FallibleLinearMap<K: Eq, V: PartialEq>: LinearMap<K, V> {
    /// What is returned where the store has no room for a new entry.
    type InsertionError;

    /// Gives `key` the value `value`. Where an entry has that key, the first
    /// such entry gets the value and the old value is returned; the key of
    /// the entry stays as it was, and the call succeeds. Otherwise a new
    /// entry is appended and `None` is returned, unless the store refuses
    /// it: then the map is unchanged.
    fn insert(&mut self, key: K, value: V) -> (r: Result<Option<V>, Self::InsertionError>)
        requires
            old(self).wf(),
        ensures
            final(self).wf(),
            K::obeys_eq_spec() ==> match first_match(old(self).entries(), key) {
                Some(i) => {
                    &&& r matches Ok(Some(previous))
                    &&& previous == old(self).entries()[i].1
                    &&& final(self).entries() == with_value(old(self).entries(), i, value)
                },
                None => match r {
                    Ok(previous) => {
                        &&& previous is None
                        &&& final(self).entries() == old(self).entries().push((key, value))
                    },
                    Err(_) => final(self).entries() == old(self).entries(),
                },
            },
    ;
}

/// A set backed by a map that may refuse to grow.
pub trait FallibleLinearSet<T: Eq>: LinearSet<T> where Self::Backing: FallibleLinearMap<T, ()> {
    /// Adds `value` to the set. Returns `true` if it was not in the set
    /// before. Where it was, `false` is returned, the set is unchanged, and
    /// `value` is dropped. Where it was not and the store has no room for
    /// it, the error is returned and the set is unchanged.
    fn insert(&mut self, value: T) -> (r: Result<
        bool,
        <Self::Backing as FallibleLinearMap<T, ()>>::InsertionError,
    >)
        requires
            old(self).backing().wf(),
        ensures
            final(self).backing().wf(),
            T::obeys_eq_spec() ==> match first_match(old(self).backing().entries(), value) {
                Some(_) => {
                    &&& r matches Ok(added)
                    &&& !added
                    &&& final(self).backing().entries() == old(self).backing().entries()
                },
                None => match r {
                    Ok(added) => {
                        &&& added
                        &&& final(self).backing().entries() == old(self).backing().entries().push(
                            (value, ()),
                        )
                    },
                    Err(_) => final(self).backing().entries() == old(self).backing().entries(),
                },
            },
    {
        proof {
            match first_match(old(self).backing().entries(), value) {
                Some(i) => {
                    crate::linear_map::lemma_first_match_is_match(
                        old(self).backing().entries(),
                        value,
                    );
                    lemma_unit_value_is_same(old(self).backing().entries(), i);
                },
                None => {},
            }
        }
        match self.map_mut().insert(value, ()) {
            Ok(previous) => Ok(previous.is_none()),
            Err(error) => Err(error),
        }
    }
}

} // verus!
