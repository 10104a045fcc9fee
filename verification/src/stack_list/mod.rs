//! Fixed-capacity sequences that live entirely inline.
pub mod error;
pub mod lemmas;
pub mod raw;

use error::PushError;
pub use raw::RawStackList;
use vstd::prelude::*;
use vstd::std_specs::cmp::PartialEqSpec;

verus! {

broadcast use RawStackList::lemma_slot_count;

/// A list growable to `CAPACITY` elements which keeps all of them inline.
#[derive(Debug, Hash)]
pub struct StackList<T, const CAPACITY: usize> {
    raw: RawStackList<T, CAPACITY>,
    length: usize,
}

impl<T, const CAPACITY: usize> View for StackList<T, CAPACITY> {
    type V = Seq<T>;

    /// The elements in index order.
    closed spec fn view(&self) -> Seq<T> {
        self.raw.prefix(self.length as nat)
    }
}

impl<T, const CAPACITY: usize> StackList<T, CAPACITY> {
    /// The elements fill a prefix of the arena, and the length counts them.
    pub closed spec fn wf(&self) -> bool {
        self.raw.filled_to(self.length as nat)
    }

    /// A well-formed list never holds more than `CAPACITY` elements.
    pub proof fn lemma_bounded(&self)
        requires
            self.wf(),
        ensures
            self@.len() <= CAPACITY,
    {
    }

    /// A new, empty list.
    pub fn new() -> (r: Self)
        ensures
            r.wf(),
            r@ == Seq::<T>::empty(),
    {
        let r = StackList { raw: RawStackList::uninit(), length: 0 };
        assert(r@ =~= Seq::<T>::empty());
        r
    }

    /// Drops every element, in place.
    pub fn clear(&mut self)
        requires
            old(self).wf(),
        ensures
            final(self).wf(),
            final(self)@ == Seq::<T>::empty(),
    {
        self.raw.clear_to(self.length);
        self.length = 0;
        assert(self@ =~= Seq::<T>::empty());
    }

    /// References to the elements, in order.
    pub fn iter(&self) -> (r: Vec<&T>)
        requires
            self.wf(),
        ensures
            r@.len() == self@.len(),
            forall|i: int| 0 <= i < r@.len() ==> *(#[trigger] r@[i]) == self@[i],
    {
        self.raw.iter_to(self.length)
    }

    /// Mutable references to the elements, in order. What the caller leaves
    /// behind the references is what the list holds afterwards.
    pub fn iter_mut(&mut self) -> (r: Vec<&mut T>)
        requires
            old(self).wf(),
        ensures
            final(self).wf(),
            r@.len() == old(self)@.len(),
            forall|i: int| 0 <= i < r@.len() ==> *(#[trigger] r@[i]) == old(self)@[i],
            final(self)@ == Seq::new(r@.len(), |i: int| *final(r@[i])),
    {
        self.raw.iter_mut_to(self.length)
    }

    /// The number of elements.
    pub fn len(&self) -> (r: usize)
        ensures
            r == self@.len(),
    {
        self.length
    }

    /// A full list holding the elements of `array`, in order.
    pub fn from_array(array: [T; CAPACITY]) -> (r: Self)
        ensures
            r.wf(),
            r@ == array@,
    {
        StackList { raw: RawStackList::from_array(array), length: CAPACITY }
    }

    /// Removes the last element and returns it, or `None` if there is none.
    pub fn pop(&mut self) -> (r: Option<T>)
        requires
            old(self).wf(),
        ensures
            final(self).wf(),
            match r {
                Some(value) => old(self)@.len() > 0 && value == old(self)@.last() && final(self)@
                    == old(self)@.drop_last(),
                None => old(self)@.len() == 0 && final(self)@ == old(self)@,
            },
    {
        if self.length == 0 {
            None
        } else {
            let r = self.remove(self.length - 1);
            assert(self@ =~= old(self)@.drop_last());
            r
        }
    }

    /// Appends `value`, or returns an error, leaving the list as it was, if
    /// the list is full.
    pub fn push(&mut self, value: T) -> (r: Result<(), PushError>)
        requires
            old(self).wf(),
        ensures
            final(self).wf(),
            old(self)@.len() < CAPACITY ==> r is Ok && final(self)@ == old(self)@.push(value),
            old(self)@.len() >= CAPACITY ==> r == Err::<(), PushError>(
                PushError::WouldExceedCapacity,
            ) && final(self)@ == old(self)@,
    {
        if self.length < CAPACITY {
            self.raw.insert_at(self.length, value);
            self.length += 1;
            assert(self@ =~= old(self)@.push(value));
            Ok(())
        } else {
            Err(PushError::WouldExceedCapacity)
        }
    }

    /// Removes the element at `index` and returns it, or `None` if there is
    /// no such element. The elements after it move one index down.
    pub fn remove(&mut self, index: usize) -> (r: Option<T>)
        requires
            old(self).wf(),
        ensures
            final(self).wf(),
            index < old(self)@.len() ==> r == Some(old(self)@[index as int]) && final(self)@
                == old(self)@.remove(index as int),
            index >= old(self)@.len() ==> r is None && final(self)@ == old(self)@,
    {
        if self.raw.is_within_capacity(index) && index < self.length {
            let r = self.raw.remove(index, self.length);
            self.length -= 1;
            Some(r)
        } else {
            None
        }
    }

    /// The element at `index`, or `None` if there is no such element.
    pub fn get(&self, index: usize) -> (r: Option<&T>)
        requires
            self.wf(),
        ensures
            index < self@.len() ==> r == Some(&self@[index as int]),
            index >= self@.len() ==> r is None,
    {
        if self.raw.is_within_capacity(index) && index < self.length {
            Some(self.raw.get(index))
        } else {
            None
        }
    }

    /// The element at `index` for writing, or `None` if there is no such
    /// element. What the caller leaves behind the reference is the element
    /// at `index` afterwards; nothing else changes.
    pub fn get_mut(&mut self, index: usize) -> (r: Option<&mut T>)
        requires
            old(self).wf(),
        ensures
            final(self).wf(),
            index >= old(self)@.len() ==> r is None && final(self)@ == old(self)@,
            index < old(self)@.len() ==> r is Some && *r.unwrap() == old(self)@[index as int]
                && final(self)@ == old(self)@.update(index as int, *final(r.unwrap())),
    {
        if self.raw.is_within_capacity(index) && index < self.length {
            Some(self.raw.get_mut(index))
        } else {
            None
        }
    }
}

/// Whether two slots hold equal contents: both vacant, or both occupied by
/// elements that `==` takes for equal.
pub open spec fn slots_eq<T: PartialEq>(a: Option<T>, b: Option<T>) -> bool {
    match (a, b) {
        (Some(x), Some(y)) => x.eq_spec(&y),
        (None, None) => true,
        _ => false,
    }
}

/// Compares what two slots hold with `==`.
pub fn slots_equal<T: PartialEq>(a: Option<&T>, b: Option<&T>) -> (r: bool)
    ensures
        T::obeys_eq_spec() ==> r == match (a, b) {
            (Some(x), Some(y)) => x.eq_spec(y),
            (None, None) => true,
            _ => false,
        },
{
    match (a, b) {
        (Some(x), Some(y)) => *x == *y,
        (None, None) => true,
        _ => false,
    }
}

/// Whether two sequences have the same length and hold, index by index,
/// elements that `==` takes for equal.
pub open spec fn elements_eq<T: PartialEq>(a: Seq<T>, b: Seq<T>) -> bool {
    &&& a.len() == b.len()
    &&& forall|i: int| 0 <= i < a.len() ==> (#[trigger] a[i]).eq_spec(&b[i])
}

impl<T: PartialEq, const CAPACITY: usize> StackList<T, CAPACITY> {
    /// What `==` computes: the lengths are the same and the slots they count
    /// hold equal contents.
    pub closed spec fn same_elements(&self, other: &Self) -> bool {
        &&& self.length == other.length
        &&& forall|i: int|
            0 <= i < self.length && i < CAPACITY ==> slots_eq(
                #[trigger] self.raw@[i],
                other.raw@[i],
            )
    }

    /// For well-formed lists `==` compares the elements index by index, and
    /// nothing else.
    pub proof fn lemma_eq_is_elementwise(&self, other: &Self)
        requires
            self.wf(),
            other.wf(),
        ensures
            self.eq_spec(other) == elements_eq(self@, other@),
    {
        if self.same_elements(other) {
            assert forall|i: int| 0 <= i < self@.len() implies (#[trigger] self@[i]).eq_spec(
                &other@[i],
            ) by {
                assert(slots_eq(self.raw@[i], other.raw@[i]));
            }
        }
        if elements_eq(self@, other@) {
            assert forall|i: int| 0 <= i < self.length && i < CAPACITY implies slots_eq(
                #[trigger] self.raw@[i],
                other.raw@[i],
            ) by {
                assert(self@[i].eq_spec(&other@[i]));
            }
        }
    }
}

impl<T: PartialEq, const CAPACITY: usize> PartialEq for StackList<T, CAPACITY> {
    /// Compares the lengths, then the elements index by index.
    fn eq(&self, other: &Self) -> (r: bool) {
        if self.length != other.length {
            return false;
        }
        let limit = if self.length <= CAPACITY {
            self.length
        } else {
            CAPACITY
        };
        let mut i: usize = 0;
        while i < limit
            invariant
                i <= limit <= CAPACITY,
                limit <= self.length,
                self.length == other.length,
                self.length <= CAPACITY ==> limit == self.length,
                T::obeys_eq_spec() ==> forall|j: int|
                    0 <= j < i ==> slots_eq(#[trigger] self.raw@[j], other.raw@[j]),
            decreases limit - i,
        {
            if !slots_equal(self.raw.slot(i), other.raw.slot(i)) {
                return false;
            }
            i += 1;
        }
        true
    }
}

impl<T: Eq, const CAPACITY: usize> Eq for StackList<T, CAPACITY> {

}

impl<T: PartialEq, const CAPACITY: usize> vstd::std_specs::cmp::PartialEqSpecImpl for StackList<T, CAPACITY> {
    open spec fn obeys_eq_spec() -> bool {
        T::obeys_eq_spec()
    }

    open spec fn eq_spec(&self, other: &Self) -> bool {
        self.same_elements(other)
    }
}

impl<T: Clone, const CAPACITY: usize> Clone for StackList<T, CAPACITY> {
    /// A list of clones of the elements, in order.
    fn clone(&self) -> (r: Self)
        ensures
            self.wf() ==> r.wf(),
            r@.len() == self@.len(),
            self.wf() ==> forall|i: int|
                0 <= i < self@.len() ==> cloned(self@[i], #[trigger] r@[i]),
    {
        StackList { raw: self.raw.clone(), length: self.length }
    }
}

} // verus!
