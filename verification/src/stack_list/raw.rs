//! The arena: a fixed block of slots, each vacant or holding one element.
use super::lemmas::after_remove;
use crate::borrow::each_occupied_mut;
use crate::std_specs::array_map_some;
use vstd::prelude::*;

verus! {

/// A block of `CAPACITY` slots that does not know how many of them are in
/// use. The types built on it keep the length and pass it in; the contracts
/// below say what each operation needs of the slots it touches.
#[derive(Debug, Hash)]
pub struct RawStackList<T, const CAPACITY: usize> {
    array: [Option<T>; CAPACITY],
}

impl<T, const CAPACITY: usize> View for RawStackList<T, CAPACITY> {
    type V = Seq<Option<T>>;

    /// The slots in order: `None` for a vacant slot, `Some` for an occupied one.
    closed spec fn view(&self) -> Seq<Option<T>> {
        self.array@
    }
}

impl<T, const CAPACITY: usize> RawStackList<T, CAPACITY> {
    /// Slots `[0, length)` are occupied and slots `[length, CAPACITY)` are vacant.
    pub open spec fn filled_to(&self, length: nat) -> bool {
        &&& length <= CAPACITY
        &&& forall|i: int| 0 <= i < CAPACITY ==> ((#[trigger] self@[i]) is Some <==> i < length)
    }

    /// The elements held by the first `length` slots.
    pub open spec fn prefix(&self, length: nat) -> Seq<T> {
        Seq::new(length, |i: int| self@[i].unwrap())
    }

    /// There are always exactly `CAPACITY` slots.
    pub broadcast proof fn lemma_slot_count(&self)
        ensures
            #[trigger] self@.len() == CAPACITY,
    {
    }

    /// An arena with every slot vacant.
    pub fn uninit() -> (r: Self)
        ensures
            r.filled_to(0),
    {
        let vacant = |i: usize| -> (slot: Option<T>)
            ensures
                slot is None,
            {
                None
            };
        let array: [Option<T>; CAPACITY] = core::array::from_fn(vacant);
        RawStackList { array }
    }

    /// An arena with every slot occupied, holding the elements of `array` in order.
    pub fn from_array(array: [T; CAPACITY]) -> (r: Self)
        ensures
            r.filled_to(CAPACITY as nat),
            r.prefix(CAPACITY as nat) == array@,
    {
        let r = RawStackList { array: array_map_some(array) };
        assert(r.prefix(CAPACITY as nat) =~= array@);
        r
    }

    /// An arena made of the given slots as they are.
    pub fn from_maybe_uninit(array: [Option<T>; CAPACITY]) -> (r: Self)
        ensures
            r@ == array@,
    {
        RawStackList { array }
    }

    /// Drops the elements of the slots below `limit` and leaves those slots vacant.
    pub fn clear_to(&mut self, limit: usize)
        requires
            limit <= CAPACITY,
        ensures
            forall|i: int| 0 <= i < limit ==> (#[trigger] final(self)@[i]) is None,
            forall|i: int| limit <= i < CAPACITY ==> (#[trigger] final(self)@[i]) == old(self)@[i],
    {
        let mut i: usize = 0;
        while i < limit
            invariant
                i <= limit <= CAPACITY,
                self@.len() == CAPACITY,
                forall|j: int| 0 <= j < i ==> (#[trigger] self@[j]) is None,
                forall|j: int| i <= j < CAPACITY ==> (#[trigger] self@[j]) == old(self)@[j],
            decreases limit - i,
        {
            self.array[i] = None;
            i += 1;
        }
    }

    /// The element of an occupied slot.
    pub fn get(&self, index: usize) -> (r: &T)
        requires
            index < CAPACITY,
            self@[index as int] is Some,
        ensures
            self@[index as int] == Some(*r),
    {
        self.array[index].as_ref().unwrap()
    }

    /// What slot `index` holds, if anything.
    pub fn slot(&self, index: usize) -> (r: Option<&T>)
        requires
            index < CAPACITY,
        ensures
            match self@[index as int] {
                Some(value) => r == Some(&value),
                None => r is None,
            },
    {
        self.array[index].as_ref()
    }

    /// The element of an occupied slot, for writing. The slot holds whatever
    /// the caller leaves behind the reference; no other slot changes.
    pub fn get_mut(&mut self, index: usize) -> (r: &mut T)
        requires
            index < CAPACITY,
            old(self)@[index as int] is Some,
        ensures
            old(self)@[index as int] == Some(*r),
            final(self)@ == old(self)@.update(index as int, Some(*final(r))),
    {
        self.array[index].as_mut().unwrap()
    }

    /// Whether `index` names one of the slots.
    pub fn is_within_capacity(&self, index: usize) -> (r: bool)
        ensures
            r == (index < CAPACITY),
    {
        CAPACITY > index
    }

    /// References to the elements of the first `index` slots, in order.
    pub fn iter_to(&self, index: usize) -> (r: Vec<&T>)
        requires
            index <= CAPACITY,
            forall|i: int| 0 <= i < index ==> (#[trigger] self@[i]) is Some,
        ensures
            r@.len() == index,
            forall|i: int| 0 <= i < index ==> *(#[trigger] r@[i]) == self@[i].unwrap(),
    {
        let mut items: Vec<&T> = Vec::new();
        let mut i: usize = 0;
        while i < index
            invariant
                i <= index <= CAPACITY,
                forall|j: int| 0 <= j < index ==> (#[trigger] self@[j]) is Some,
                items@.len() == i,
                forall|j: int| 0 <= j < i ==> *(#[trigger] items@[j]) == self@[j].unwrap(),
            decreases index - i,
        {
            items.push(self.get(i));
            i += 1;
        }
        items
    }

    /// Mutable references to the elements of the first `index` slots, in
    /// order. What the caller leaves behind the references is what those
    /// slots hold afterwards; the other slots stay as they are.
    pub fn iter_mut_to(&mut self, index: usize) -> (r: Vec<&mut T>)
        requires
            index <= CAPACITY,
            forall|i: int| 0 <= i < index ==> (#[trigger] old(self)@[i]) is Some,
        ensures
            r@.len() == index,
            forall|i: int| 0 <= i < index ==> *(#[trigger] r@[i]) == old(self)@[i].unwrap(),
            final(self)@ == Seq::new(index as nat, |i: int| Some(*final(r@[i]))) + old(self)@.subrange(
                index as int,
                CAPACITY as int,
            ),
    {
        let slots: &mut [Option<T>] = &mut self.array;
        each_occupied_mut(slots, index)
    }

    /// Takes the element of slot `index` out and moves each element of the
    /// slots `(index, length)` one slot to the left, so that slot
    /// `length - 1` ends vacant. Slots from `length` on are not touched.
    pub fn remove(&mut self, index: usize, length: usize) -> (r: T)
        requires
            index < length <= CAPACITY,
            forall|i: int| index <= i < length ==> (#[trigger] old(self)@[i]) is Some,
        ensures
            old(self)@[index as int] == Some(r),
            final(self)@ == after_remove(old(self)@, index as int, length as int),
            old(self).filled_to(length as nat) ==> final(self).filled_to((length - 1) as nat),
            final(self).prefix((length - 1) as nat) == old(self).prefix(length as nat).remove(
                index as int,
            ),
    {
        let taken = self.array[index].take();
        let mut i: usize = index;
        while i + 1 < length
            invariant
                index <= i < length <= CAPACITY,
                self@.len() == CAPACITY,
                self@[i as int] is None,
                forall|j: int| 0 <= j < index ==> (#[trigger] self@[j]) == old(self)@[j],
                forall|j: int| index <= j < i ==> (#[trigger] self@[j]) == old(self)@[j + 1],
                forall|j: int| i < j < CAPACITY ==> (#[trigger] self@[j]) == old(self)@[j],
            decreases length - i,
        {
            let moved = self.array[i + 1].take();
            self.array[i] = moved;
            i += 1;
        }
        assert(self@ =~= old(self)@.remove(index as int).insert(length - 1, None));
        assert(self.prefix((length - 1) as nat) =~= old(self).prefix(length as nat).remove(
            index as int,
        ));
        taken.unwrap()
    }

    /// Puts `value` into slot `index`. An element already there is dropped.
    pub fn insert_at(&mut self, index: usize, value: T)
        requires
            index < CAPACITY,
        ensures
            final(self)@ == old(self)@.update(index as int, Some(value)),
    {
        self.array[index] = Some(value);
    }
}

impl<T: Clone, const CAPACITY: usize> Clone for RawStackList<T, CAPACITY> {
    /// An arena whose vacant slots are those of this one and whose occupied
    /// slots hold clones of the elements of this one.
    fn clone(&self) -> (r: Self)
        ensures
            forall|i: int|
                0 <= i < CAPACITY ==> match self@[i] {
                    Some(element) => (#[trigger] r@[i]) matches Some(copy) && cloned(element, copy),
                    None => r@[i] is None,
                },
    {
        let mut r: RawStackList<T, CAPACITY> = RawStackList::uninit();
        let mut i: usize = 0;
        while i < CAPACITY
            invariant
                i <= CAPACITY,
                r@.len() == CAPACITY,
                forall|j: int|
                    0 <= j < i ==> match self@[j] {
                        Some(element) => (#[trigger] r@[j]) matches Some(copy) && cloned(
                            element,
                            copy,
                        ),
                        None => r@[j] is None,
                    },
            decreases CAPACITY - i,
        {
            let copy = self.slot(i).cloned();
            r.array[i] = copy;
            i += 1;
        }
        r
    }
}

} // verus!
