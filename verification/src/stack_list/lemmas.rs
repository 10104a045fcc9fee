//! What the contracts of the arena come to, slot by slot.
use vstd::prelude::*;

verus! {

/// An element written into a slot is the one read from it, and no other
/// slot is touched by the write.
pub proof fn lemma_written_slot_is_read<T>(slots: Seq<Option<T>>, index: int, value: T)
    requires
        0 <= index < slots.len(),
    ensures
        slots.update(index, Some(value)).len() == slots.len(),
        slots.update(index, Some(value))[index] == Some(value),
        forall|i: int|
            0 <= i < slots.len() && i != index ==> slots.update(index, Some(value))[i] == slots[i],
{
}

/// The slots after the element of slot `index` was taken out of a block
/// whose first `length` slots are in use.
pub open spec fn after_remove<T>(slots: Seq<Option<T>>, index: int, length: int) -> Seq<
    Option<T>,
> {
    slots.remove(index).insert(length - 1, None)
}

/// Removing from slot `index` of a block whose first `length` slots are in
/// use leaves the slots before `index` as they were, moves each slot of
/// `(index, length)` one to the left, leaves slot `length - 1` vacant, and
/// does not touch the slots from `length` on.
pub proof fn lemma_remove_shifts_left<T>(slots: Seq<Option<T>>, index: int, length: int)
    requires
        0 <= index < length <= slots.len(),
    ensures
        after_remove(slots, index, length).len() == slots.len(),
        forall|i: int| 0 <= i < index ==> #[trigger] after_remove(slots, index, length)[i] == slots[i],
        forall|i: int|
            index <= i < length - 1 ==> #[trigger] after_remove(slots, index, length)[i] == slots[i
                + 1],
        after_remove(slots, index, length)[length - 1] is None,
        forall|i: int|
            length <= i < slots.len() ==> #[trigger] after_remove(slots, index, length)[i]
                == slots[i],
{
}

} // verus!
