//! The hybrid vector: a growable sequence whose first `STACK_CAPACITY`
//! elements live inline and whose other elements live on the heap, behind
//! one index space.
pub mod iter;
pub mod lemmas;
pub mod map;
pub mod policy;
pub mod set;

use crate::borrow::each_mut;
use crate::fallible::error::AllocationError;
use crate::stack_list::{elements_eq, slots_eq, slots_equal, RawStackList};
use crate::std_specs::{array_map_some, vec_capacity, vec_shrink_to_fit};
use core::marker::PhantomData;
use policy::GrowthPolicy;
use vstd::prelude::*;
use vstd::std_specs::cmp::PartialEqSpec;

verus! {

broadcast use RawStackList::lemma_slot_count;

/// A vector which keeps its first `STACK_CAPACITY` elements inline and the
/// rest on the heap. `P` decides what happens when the heap part must grow.
#[derive(Debug, Hash)]
pub struct FatVec<T, const STACK_CAPACITY: usize, P: GrowthPolicy> {
    stack_list: RawStackList<T, STACK_CAPACITY>,
    vec: Vec<T>,
    /// Counts the elements of both parts.
    len: usize,
    policy: PhantomData<P>,
}

/// The number of elements that can be held without reallocating, given the
/// inline capacity and the capacity of the heap part: their sum, held at
/// `usize::MAX` where the sum would pass it.
pub fn total_capacity(stack_capacity: usize, heap_capacity: usize) -> (r: usize)
    ensures
        r == if stack_capacity + heap_capacity <= usize::MAX {
            stack_capacity + heap_capacity
        } else {
            usize::MAX as int
        },
{
    heap_capacity.saturating_add(stack_capacity)
}

impl<T, const STACK_CAPACITY: usize, P: GrowthPolicy> View for FatVec<T, STACK_CAPACITY, P> {
    type V = Seq<T>;

    /// The elements in index order: the inline ones, then the heap ones.
    open spec fn view(&self) -> Seq<T> {
        self.stack_view() + self.heap_view()
    }
}

impl<T, const STACK_CAPACITY: usize, P: GrowthPolicy> FatVec<T, STACK_CAPACITY, P> {
    /// The elements that live inline, in order.
    pub closed spec fn stack_view(&self) -> Seq<T> {
        self.stack_list.prefix(
            if self.len <= STACK_CAPACITY {
                self.len as nat
            } else {
                STACK_CAPACITY as nat
            },
        )
    }

    /// The elements that live on the heap, in order.
    pub closed spec fn heap_view(&self) -> Seq<T> {
        self.vec@
    }

    /// The two parts are packed: the inline part is a filled prefix of the
    /// arena, the heap part holds elements only when the inline part is full,
    /// and the length counts both.
    pub closed spec fn wf(&self) -> bool {
        &&& self.len == self.stack_view().len() + self.vec@.len()
        &&& self.stack_list.filled_to(self.stack_view().len())
        &&& self.vec@.len() > 0 ==> self.len > STACK_CAPACITY
    }

    /// What well-formedness says of the two parts.
    pub proof fn lemma_packed(&self)
        requires
            self.wf(),
        ensures
            self@.len() <= usize::MAX,
            self.stack_view().len() <= STACK_CAPACITY,
            self.heap_view().len() > 0 ==> self.stack_view().len() == STACK_CAPACITY,
            self.stack_view() == self@.subrange(0, self.stack_view().len() as int),
            self.heap_view() == self@.subrange(self.stack_view().len() as int, self@.len() as int),
    {
        assert(self.stack_view() =~= self@.subrange(0, self.stack_view().len() as int));
        assert(self.heap_view() =~= self@.subrange(
            self.stack_view().len() as int,
            self@.len() as int,
        ));
    }

    /// A new, empty vector. Nothing is allocated on the heap.
    pub fn new() -> (r: Self)
        ensures
            r.wf(),
            r@ == Seq::<T>::empty(),
    {
        let r = FatVec {
            stack_list: RawStackList::uninit(),
            vec: Vec::new(),
            len: 0,
            policy: PhantomData,
        };
        assert(r@ =~= Seq::<T>::empty());
        r
    }

    /// A vector whose inline part is full of the elements of `array`, in
    /// order. Nothing is allocated on the heap.
    pub fn with_array(array: [T; STACK_CAPACITY]) -> (r: Self)
        ensures
            r.wf(),
            r@ == array@,
            r.stack_view() == array@,
            r.heap_view() == Seq::<T>::empty(),
    {
        let r = FatVec {
            stack_list: RawStackList::from_array(array),
            vec: Vec::new(),
            len: STACK_CAPACITY,
            policy: PhantomData,
        };
        assert(r@ =~= array@);
        r
    }

    /// A vector whose inline part holds the elements of `array`, in order,
    /// and has room for more where the array is shorter than
    /// `STACK_CAPACITY`. Nothing is allocated on the heap.
    pub fn with_partial_array<const LENGTH: usize>(array: [T; LENGTH]) -> (r: Self)
        requires
            LENGTH <= STACK_CAPACITY,
        ensures
            r.wf(),
            r@ == array@,
            r.stack_view() == array@,
            r.heap_view() == Seq::<T>::empty(),
    {
        let mut items = array_map_some(array);
        let mut r = FatVec {
            stack_list: RawStackList::uninit(),
            vec: Vec::new(),
            len: 0,
            policy: PhantomData,
        };
        assert(r.stack_view() =~= array@.subrange(0, 0));
        let mut i: usize = 0;
        while i < LENGTH
            invariant
                LENGTH <= STACK_CAPACITY,
                i <= LENGTH,
                items@.len() == LENGTH,
                forall|j: int| i <= j < LENGTH ==> #[trigger] items@[j] == Some(array@[j]),
                r.wf(),
                r.len == i,
                r.vec@.len() == 0,
                r.stack_view() == array@.subrange(0, i as int),
            decreases LENGTH - i,
        {
            let item = items[i].take().unwrap();
            r.stack_list.insert_at(i, item);
            r.len += 1;
            assert(r.stack_view() =~= array@.subrange(0, i + 1));
            i += 1;
        }
        assert(r.stack_view() =~= array@);
        assert(r@ =~= array@);
        r
    }

    /// A new, empty vector whose heap part has room for `capacity` elements,
    /// unless the policy refuses.
    pub fn try_with_heap_capacity(capacity: usize) -> (r: Result<Self, AllocationError>)
        requires
            P::admits(0, capacity as nat, vstd::layout::size_of::<T>()),
        ensures
            r matches Ok(v) ==> v.wf() && v@ == Seq::<T>::empty(),
            r matches Err(error) ==> P::refuses_with(error),
            P::owed(0, capacity as nat, vstd::layout::size_of::<T>()) matches Some(answer)
                ==> match answer {
                Ok(()) => r is Ok,
                Err(error) => r matches Err(e) && e == error,
            },
    {
        match P::allocate(capacity) {
            Ok(vec) => {
                let r = FatVec {
                    stack_list: RawStackList::uninit(),
                    vec,
                    len: 0,
                    policy: PhantomData,
                };
                assert(r@ =~= Seq::<T>::empty());
                Ok(r)
            },
            Err(error) => Err(error),
        }
    }

    /// A new, empty vector with room for `capacity` elements in all: what
    /// `STACK_CAPACITY` does not cover is reserved on the heap, unless the
    /// policy refuses.
    pub fn try_with_capacity(capacity: usize) -> (r: Result<Self, AllocationError>)
        requires
            P::admits(
                0,
                Self::heap_share(capacity as nat),
                vstd::layout::size_of::<T>(),
            ),
        ensures
            r matches Ok(v) ==> v.wf() && v@ == Seq::<T>::empty(),
            r matches Err(error) ==> P::refuses_with(error),
            P::owed(
                0,
                Self::heap_share(capacity as nat),
                vstd::layout::size_of::<T>(),
            ) matches Some(answer) ==> match answer {
                Ok(()) => r is Ok,
                Err(error) => r matches Err(e) && e == error,
            },
    {
        Self::try_with_heap_capacity(capacity.saturating_sub(STACK_CAPACITY))
    }

    /// The part of a total capacity that the inline storage does not cover.
    pub open spec fn heap_share(capacity: nat) -> nat {
        if capacity > STACK_CAPACITY {
            (capacity - STACK_CAPACITY) as nat
        } else {
            0
        }
    }

    /// The number of elements that live inline.
    pub fn array_len(&self) -> (r: usize)
        requires
            self.wf(),
        ensures
            r == self.stack_view().len(),
            r == if self@.len() <= STACK_CAPACITY {
                self@.len()
            } else {
                STACK_CAPACITY as nat
            },
    {
        if self.len <= STACK_CAPACITY {
            self.len
        } else {
            STACK_CAPACITY
        }
    }

    /// The number of elements.
    pub fn len(&self) -> (r: usize)
        requires
            self.wf(),
        ensures
            r == self@.len(),
    {
        self.len
    }

    /// Whether there is no element.
    pub fn is_empty(&self) -> (r: bool)
        requires
            self.wf(),
        ensures
            r == (self@.len() == 0),
    {
        self.len == 0
    }

    /// The number of elements that can be held, inline and on the heap,
    /// without reallocating: never less than `STACK_CAPACITY`, nor than the
    /// number of elements held.
    pub fn capacity(&self) -> (r: usize)
        requires
            self.wf(),
        ensures
            r >= STACK_CAPACITY,
            r >= self@.len(),
    {
        total_capacity(STACK_CAPACITY, vec_capacity(&self.vec))
    }

    /// References to the elements that live inline, in order.
    pub fn stack_items(&self) -> (r: Vec<&T>)
        requires
            self.wf(),
        ensures
            r@.len() == self.stack_view().len(),
            forall|i: int| 0 <= i < r@.len() ==> *(#[trigger] r@[i]) == self.stack_view()[i],
    {
        self.stack_list.iter_to(self.array_len())
    }

    /// The elements that live on the heap, in order.
    pub fn heap_items(&self) -> (r: &[T])
        requires
            self.wf(),
        ensures
            r@ == self.heap_view(),
    {
        self.vec.as_slice()
    }

    /// Mutable references to the elements, in order: the inline ones, then
    /// the heap ones. What the caller leaves behind the references is what
    /// the vector holds afterwards.
    pub fn iter_mut(&mut self) -> (r: Vec<&mut T>)
        requires
            old(self).wf(),
        ensures
            final(self).wf(),
            r@.len() == old(self)@.len(),
            forall|i: int| 0 <= i < r@.len() ==> *(#[trigger] r@[i]) == old(self)@[i],
            final(self)@ == Seq::new(r@.len(), |i: int| *final(r@[i])),
    {
        let limit = self.array_len();
        let mut refs = self.stack_list.iter_mut_to(limit);
        let mut heap_refs = each_mut(self.vec.as_mut_slice());
        refs.append(&mut heap_refs);
        refs
    }

    /// Drops every element. The heap storage is kept.
    pub fn clear(&mut self)
        requires
            old(self).wf(),
        ensures
            final(self).wf(),
            final(self)@ == Seq::<T>::empty(),
    {
        let limit = self.array_len();
        self.stack_list.clear_to(limit);
        self.vec.clear();
        self.len = 0;
        assert(self@ =~= Seq::<T>::empty());
    }

    /// Appends `value`. Below `STACK_CAPACITY` elements it goes inline and
    /// the call succeeds. Otherwise it goes onto the heap, unless the length
    /// has reached `usize::MAX` or the policy refuses to grow; refused, the
    /// vector is unchanged. Where the policy is bound to an answer, that is
    /// the answer.
    pub fn try_push(&mut self, value: T) -> (r: Result<(), AllocationError>)
        requires
            old(self).wf(),
        ensures
            final(self).wf(),
            match r {
                Ok(()) => final(self)@ == old(self)@.push(value),
                Err(_) => final(self)@ == old(self)@,
            },
            old(self)@.len() < STACK_CAPACITY ==> r is Ok,
            old(self)@.len() == usize::MAX ==> r == Err::<
                (),
                AllocationError,
            >(AllocationError::CollectionRefused),
            r matches Err(error) ==> error == AllocationError::CollectionRefused
                || P::refuses_with(error),
            STACK_CAPACITY <= old(self)@.len() < usize::MAX ==> match P::owed(
                old(self).heap_view().len(),
                1,
                vstd::layout::size_of::<T>(),
            ) {
                Some(answer) => r == answer,
                None => true,
            },
    {
        if self.len < STACK_CAPACITY {
            self.stack_list.insert_at(self.len, value);
            self.len += 1;
            assert(self@ =~= old(self)@.push(value));
            Ok(())
        } else if self.len == usize::MAX {
            Err(AllocationError::CollectionRefused)
        } else {
            let answer = P::make_room(&mut self.vec);
            if answer.is_ok() {
                self.vec.push(value);
                self.len += 1;
                assert(self@ =~= old(self)@.push(value));
            }
            answer
        }
    }

    /// Removes the last element and returns it, or `None` if there is none.
    pub fn pop(&mut self) -> (r: Option<T>)
        requires
            old(self).wf(),
        ensures
            final(self).wf(),
            match r {
                Some(value) => old(self)@.len() > 0 && value == old(self)@.last() && final(self)@
                    == old(self)@.drop_last(),
                None => old(self)@.len() == 0 && final(self)@ == old(self)@,
            },
    {
        if self.len == 0 {
            None
        } else if self.len <= STACK_CAPACITY {
            let value = self.stack_list.remove(self.len - 1, self.len);
            self.len -= 1;
            assert(self@ =~= old(self)@.drop_last());
            Some(value)
        } else {
            let value = self.vec.pop();
            self.len -= 1;
            assert(self@ =~= old(self)@.drop_last());
            value
        }
    }

    /// Removes the element at `idx` and returns it, or `None` if there is no
    /// such element. The elements after it move one index down.
    pub fn remove(&mut self, idx: usize) -> (r: Option<T>)
        requires
            old(self).wf(),
        ensures
            final(self).wf(),
            idx < old(self)@.len() ==> r == Some(old(self)@[idx as int]) && final(self)@ == old(self)@.remove(idx as int),
            idx >= old(self)@.len() ==> r is None && final(self)@ == old(self)@,
            idx < old(self).stack_view().len() && old(self).heap_view().len() > 0 ==> {
                &&& final(self).stack_view() == old(self).stack_view().remove(idx as int).push(
                    old(self).heap_view()[0],
                )
                &&& final(self).heap_view() == old(self).heap_view().remove(0)
            },
            idx < old(self).stack_view().len() && old(self).heap_view().len() == 0 ==> {
                &&& final(self).stack_view() == old(self).stack_view().remove(idx as int)
                &&& final(self).heap_view() == old(self).heap_view()
            },
            old(self).stack_view().len() <= idx < old(self)@.len() ==> {
                &&& final(self).stack_view() == old(self).stack_view()
                &&& final(self).heap_view() == old(self).heap_view().remove(idx - STACK_CAPACITY)
            },
            idx >= old(self)@.len() ==> {
                &&& final(self).stack_view() == old(self).stack_view()
                &&& final(self).heap_view() == old(self).heap_view()
            },
    {
        if idx >= self.len {
            None
        } else {
            Some(self.remove_unchecked(idx))
        }
    }

    /// Removes the element at `idx`, which must exist, and returns it. Where
    /// it lived inline and the heap part is not empty, the first heap element
    /// moves into the last inline slot.
    pub fn remove_unchecked(&mut self, idx: usize) -> (r: T)
        requires
            old(self).wf(),
            idx < old(self)@.len(),
        ensures
            final(self).wf(),
            r == old(self)@[idx as int],
            final(self)@ == old(self)@.remove(idx as int),
            idx < STACK_CAPACITY && old(self).heap_view().len() > 0 ==> {
                &&& final(self).stack_view() == old(self).stack_view().remove(idx as int).push(
                    old(self).heap_view()[0],
                )
                &&& final(self).heap_view() == old(self).heap_view().remove(0)
            },
            idx < STACK_CAPACITY && old(self).heap_view().len() == 0 ==> {
                &&& final(self).stack_view() == old(self).stack_view().remove(idx as int)
                &&& final(self).heap_view() == old(self).heap_view()
            },
            idx >= STACK_CAPACITY ==> {
                &&& final(self).stack_view() == old(self).stack_view()
                &&& final(self).heap_view() == old(self).heap_view().remove(idx - STACK_CAPACITY)
            },
    {
        if idx < STACK_CAPACITY {
            let stack_len = self.array_len();
            let value = self.stack_list.remove(idx, stack_len);
            if self.vec.len() > 0 {
                let migrated = self.vec.remove(0);
                self.stack_list.insert_at(STACK_CAPACITY - 1, migrated);
            }
            self.len -= 1;
            assert(self@ =~= old(self)@.remove(idx as int));
            assert(old(self).heap_view().len() > 0 ==> self.stack_view() =~= old(self).stack_view().remove(idx as int).push(old(self).heap_view()[0]));
            assert(old(self).heap_view().len() == 0 ==> self.stack_view() =~= old(self).stack_view().remove(idx as int));
            value
        } else {
            let value = self.vec.remove(idx - STACK_CAPACITY);
            self.len -= 1;
            assert(self@ =~= old(self)@.remove(idx as int));
            value
        }
    }

    /// The element at `idx`, or `None` if there is no such element.
    pub fn get(&self, idx: usize) -> (r: Option<&T>)
        requires
            self.wf(),
        ensures
            idx < self@.len() ==> r == Some(&self@[idx as int]),
            idx >= self@.len() ==> r is None,
    {
        if idx >= self.len {
            None
        } else {
            Some(self.get_unchecked(idx))
        }
    }

    /// The element at `idx`, which must exist.
    pub fn get_unchecked(&self, idx: usize) -> (r: &T)
        requires
            self.wf(),
            idx < self@.len(),
        ensures
            *r == self@[idx as int],
    {
        if idx < STACK_CAPACITY {
            self.stack_list.get(idx)
        } else {
            &self.vec[idx - STACK_CAPACITY]
        }
    }

    /// The element at `idx` for writing, or `None` if there is no such
    /// element. What the caller leaves behind the reference is the element at
    /// `idx` afterwards; nothing else changes.
    pub fn get_mut(&mut self, idx: usize) -> (r: Option<&mut T>)
        requires
            old(self).wf(),
        ensures
            final(self).wf(),
            idx >= old(self)@.len() ==> r is None && final(self)@ == old(self)@,
            idx < old(self)@.len() ==> r is Some && *r.unwrap() == old(self)@[idx as int] && final(self)@ == old(self)@.update(idx as int, *final(r.unwrap())),
    {
        if idx >= self.len {
            None
        } else {
            Some(self.get_unchecked_mut(idx))
        }
    }

    /// The element at `idx`, which must exist, for writing.
    pub fn get_unchecked_mut(&mut self, idx: usize) -> (r: &mut T)
        requires
            old(self).wf(),
            idx < old(self)@.len(),
        ensures
            final(self).wf(),
            *r == old(self)@[idx as int],
            final(self)@ == old(self)@.update(idx as int, *final(r)),
    {
        if idx < STACK_CAPACITY {
            self.stack_list.get_mut(idx)
        } else {
            &mut self.vec[idx - STACK_CAPACITY]
        }
    }

    /// Makes room on the heap for `additional` more elements, unless the
    /// policy refuses. The inline capacity never changes, and the elements are
    /// the same afterwards.
    pub fn try_reserve(&mut self, additional: usize) -> (r: Result<(), AllocationError>)
        requires
            old(self).wf(),
            P::admits(
                old(self).heap_view().len(),
                additional as nat,
                vstd::layout::size_of::<T>(),
            ),
        ensures
            final(self).wf(),
            final(self)@ == old(self)@,
            r matches Err(error) ==> P::refuses_with(error),
            P::owed(
                old(self).heap_view().len(),
                additional as nat,
                vstd::layout::size_of::<T>(),
            ) matches Some(answer) ==> r == answer,
    {
        P::reserve(&mut self.vec, additional)
    }

    /// Gives spare heap capacity back. The elements are the same afterwards.
    pub fn shrink_to_fit(&mut self)
        requires
            old(self).wf(),
        ensures
            final(self).wf(),
            final(self)@ == old(self)@,
    {
        vec_shrink_to_fit(&mut self.vec);
    }
}

impl<T: PartialEq, const STACK_CAPACITY: usize, P: GrowthPolicy> FatVec<T, STACK_CAPACITY, P> {
    /// What `==` computes: the lengths are the same, the inline slots they
    /// count hold equal contents, and so do the heap parts.
    pub closed spec fn same_elements(&self, other: &Self) -> bool {
        &&& self.len == other.len
        &&& forall|i: int|
            0 <= i < self.len && i < STACK_CAPACITY ==> slots_eq(
                #[trigger] self.stack_list@[i],
                other.stack_list@[i],
            )
        &&& elements_eq(self.vec@, other.vec@)
    }

    /// For well-formed vectors `==` compares the elements index by index,
    /// wherever they live, and nothing else.
    pub proof fn lemma_eq_is_elementwise(&self, other: &Self)
        requires
            self.wf(),
            other.wf(),
        ensures
            self.eq_spec(other) == elements_eq(self@, other@),
    {
        let stack_len = self.stack_view().len() as int;
        if self.same_elements(other) {
            assert forall|i: int| 0 <= i < self@.len() implies (#[trigger] self@[i]).eq_spec(
                &other@[i],
            ) by {
                if i < stack_len {
                    assert(slots_eq(self.stack_list@[i], other.stack_list@[i]));
                } else {
                    assert(self.vec@[i - stack_len].eq_spec(&other.vec@[i - stack_len]));
                }
            }
        }
        if elements_eq(self@, other@) {
            assert forall|i: int| 0 <= i < self.len && i < STACK_CAPACITY implies slots_eq(
                #[trigger] self.stack_list@[i],
                other.stack_list@[i],
            ) by {
                assert(self@[i].eq_spec(&other@[i]));
            }
            assert forall|j: int| 0 <= j < self.vec@.len() implies (#[trigger] self.vec@[j]).eq_spec(
                &other.vec@[j],
            ) by {
                assert(self@[j + stack_len].eq_spec(&other@[j + stack_len]));
            }
        }
    }
}

impl<T: PartialEq, const STACK_CAPACITY: usize, P: GrowthPolicy> PartialEq for FatVec<T, STACK_CAPACITY, P> {
    /// Compares the lengths, then the elements index by index.
    fn eq(&self, other: &Self) -> (r: bool) {
        if self.len != other.len || self.vec.len() != other.vec.len() {
            return false;
        }
        let limit = if self.len <= STACK_CAPACITY {
            self.len
        } else {
            STACK_CAPACITY
        };
        let mut i: usize = 0;
        while i < limit
            invariant
                i <= limit <= STACK_CAPACITY,
                limit <= self.len,
                self.len <= STACK_CAPACITY ==> limit == self.len,
                T::obeys_eq_spec() ==> forall|j: int|
                    0 <= j < i ==> slots_eq(#[trigger] self.stack_list@[j], other.stack_list@[j]),
            decreases limit - i,
        {
            if !slots_equal(self.stack_list.slot(i), other.stack_list.slot(i)) {
                return false;
            }
            i += 1;
        }
        let mut j: usize = 0;
        while j < self.vec.len()
            invariant
                j <= self.vec@.len(),
                self.vec@.len() == other.vec@.len(),
                T::obeys_eq_spec() ==> forall|k: int|
                    0 <= k < j ==> (#[trigger] self.vec@[k]).eq_spec(&other.vec@[k]),
            decreases self.vec@.len() - j,
        {
            if !(self.vec[j] == other.vec[j]) {
                return false;
            }
            j += 1;
        }
        true
    }
}

impl<T: Eq, const STACK_CAPACITY: usize, P: GrowthPolicy> Eq for FatVec<T, STACK_CAPACITY, P> {

}

impl<T: PartialEq, const STACK_CAPACITY: usize, P: GrowthPolicy> vstd::std_specs::cmp::PartialEqSpecImpl for FatVec<T, STACK_CAPACITY, P> {
    open spec fn obeys_eq_spec() -> bool {
        T::obeys_eq_spec()
    }

    open spec fn eq_spec(&self, other: &Self) -> bool {
        self.same_elements(other)
    }
}

impl<T: Clone, const STACK_CAPACITY: usize, P: GrowthPolicy> Clone for FatVec<T, STACK_CAPACITY, P> {
    /// A vector of clones of the elements, in order, each in the part in
    /// which the element lives.
    fn clone(&self) -> (r: Self)
        ensures
            self.wf() ==> r.wf(),
            r@.len() == self@.len(),
            self.wf() ==> forall|i: int|
                0 <= i < self@.len() ==> cloned(self@[i], #[trigger] r@[i]),
    {
        FatVec {
            stack_list: self.stack_list.clone(),
            vec: self.vec.clone(),
            len: self.len,
            policy: PhantomData,
        }
    }
}

} // verus!
