//! Collections that let the process abort where memory cannot be had.
pub mod fat_vec;
pub mod vec;
pub mod vecdeque;

pub use fat_vec::map::FatMap;
pub use fat_vec::set::FatSet;
pub use fat_vec::FatVec;
pub use vec::map::VecMap;
pub use vec::set::VecSet;
pub use vecdeque::map::DequeMap;
pub use vecdeque::set::DequeSet;

use crate::linear_map::{after_insert, first_match, LinearMap};
use crate::linear_set::{lemma_unit_value_is_same, LinearSet};
use vstd::prelude::*;
use vstd::std_specs::cmp::PartialEqSpec;

verus! {

/// A map kept as a sequence of entries whose store grows on its own: where
/// the memory for a new entry cannot be had, the process aborts.
pub trait PanickingLinearMap<K: Eq, V: PartialEq>: LinearMap<K, V> {
    /// Gives `key` the value `value`. Where an entry has that key, the first
    /// such entry gets the value and the old value is returned; the key of
    /// the entry stays as it was. Otherwise a new entry is appended and
    /// `None` is returned.
    fn insert(&mut self, key: K, value: V) -> (r: Option<V>)
        requires
            old(self).wf(),
            old(self).entries().len() < usize::MAX,
        ensures
            final(self).wf(),
            K::obeys_eq_spec() ==> final(self).entries() == after_insert(
                old(self).entries(),
                key,
                value,
            ),
            K::obeys_eq_spec() ==> r == match first_match(old(self).entries(), key) {
                Some(i) => Some(old(self).entries()[i].1),
                None => None,
            },
    ;
}

/// A set backed by a map that grows on its own.
pub trait PanickingLinearSet<T: Eq>: LinearSet<T> where Self::Backing: PanickingLinearMap<T, ()> {
    /// Adds `value` to the set. Returns `true` if it was not in the set
    /// before. Where it was, `false` is returned, the set is unchanged, and
    /// `value` is dropped.
    fn insert(&mut self, value: T) -> (r: bool)
        requires
            old(self).backing().wf(),
            old(self).backing().entries().len() < usize::MAX,
        ensures
            final(self).backing().wf(),
            T::obeys_eq_spec() ==> r == first_match(old(self).backing().entries(), value).is_none(),
            T::obeys_eq_spec() ==> final(self).backing().entries() == if r {
                old(self).backing().entries().push((value, ()))
            } else {
                old(self).backing().entries()
            },
    {
        proof {
            match first_match(old(self).backing().entries(), value) {
                Some(i) => {
                    crate::linear_map::lemma_first_match_is_match(
                        old(self).backing().entries(),
                        value,
                    );
                    lemma_unit_value_is_same(old(self).backing().entries(), i);
                },
                None => {},
            }
        }
        self.map_mut().insert(value, ()).is_none()
    }
}

} // verus!
