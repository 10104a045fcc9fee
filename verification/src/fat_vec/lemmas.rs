//! What follows from the contracts of the hybrid vector when its operations
//! are put together, proved over the sequences that the contracts speak of.
use vstd::prelude::*;

verus! {

/// The sequence that results from appending each element of `values`, first
/// to last, to `start`.
pub open spec fn after_pushes<T>(start: Seq<T>, values: Seq<T>) -> Seq<T>
    decreases values.len(),
{
    if values.len() == 0 {
        start
    } else {
        after_pushes(start.push(values.first()), values.drop_first())
    }
}

/// Pushing keeps the order: after any number of pushes, what was there
/// before stands where it stood, and the pushed elements follow it in the
/// order in which they were pushed.
pub proof fn lemma_pushes_keep_order<T>(start: Seq<T>, values: Seq<T>)
    ensures
        after_pushes(start, values) == start + values,
        after_pushes(start, values).len() == start.len() + values.len(),
        forall|i: int| 0 <= i < start.len() ==> after_pushes(start, values)[i] == start[i],
        forall|i: int|
            0 <= i < values.len() ==> after_pushes(start, values)[start.len() + i] == values[i],
    decreases values.len(),
{
    if values.len() == 0 {
        assert(start + values =~= start);
    } else {
        lemma_pushes_keep_order(start.push(values.first()), values.drop_first());
        assert(start.push(values.first()) + values.drop_first() =~= start + values);
    }
}

/// Removing the first element of a sequence that has one leaves the rest,
/// each element one index lower than before.
pub proof fn lemma_remove_first<T>(elements: Seq<T>)
    requires
        elements.len() > 0,
    ensures
        elements.remove(0) == elements.drop_first(),
        elements.remove(0).len() == elements.len() - 1,
        forall|i: int| 0 <= i < elements.len() - 1 ==> elements.remove(0)[i] == elements[i + 1],
{
    assert(elements.remove(0) =~= elements.drop_first());
}

/// Removing an inline element while the heap part holds elements: the
/// former first heap element ends in the last inline slot, the inline part
/// stays as long as it was, and the order of all that remains is kept.
pub proof fn lemma_remove_migrates_front<T>(stack: Seq<T>, heap: Seq<T>, idx: int)
    requires
        0 <= idx < stack.len(),
        heap.len() > 0,
    ensures
        stack.remove(idx).push(heap[0]) + heap.remove(0) == (stack + heap).remove(idx),
        stack.remove(idx).push(heap[0]).len() == stack.len(),
        stack.remove(idx).push(heap[0]).last() == heap.first(),
{
    assert(stack.remove(idx).push(heap[0]) + heap.remove(0) =~= (stack + heap).remove(idx));
}

/// One step of a history of a vector.
pub enum Edit<T> {
    /// Append an element.
    Push(T),
    /// Remove the element at an index.
    Remove(nat),
}

/// The elements after one step: a push appends, a removal at an index that
/// exists takes that element out, and a removal at any other index changes
/// nothing.
pub open spec fn after_edit<T>(elements: Seq<T>, edit: Edit<T>) -> Seq<T> {
    match edit {
        Edit::Push(value) => elements.push(value),
        Edit::Remove(idx) => if idx < elements.len() {
            elements.remove(idx as int)
        } else {
            elements
        },
    }
}

/// The elements after a history, applied first step to last.
pub open spec fn after_edits<T>(elements: Seq<T>, edits: Seq<Edit<T>>) -> Seq<T>
    decreases edits.len(),
{
    if edits.len() == 0 {
        elements
    } else {
        after_edits(after_edit(elements, edits.first()), edits.drop_first())
    }
}

/// Whether every removal of a history names an index that exists when its
/// turn comes.
pub open spec fn removals_in_range<T>(elements: Seq<T>, edits: Seq<Edit<T>>) -> bool
    decreases edits.len(),
{
    if edits.len() == 0 {
        true
    } else {
        &&& edits.first() matches Edit::Remove(idx) ==> idx < elements.len()
        &&& removals_in_range(after_edit(elements, edits.first()), edits.drop_first())
    }
}

/// The number of pushes in a history.
pub open spec fn count_pushes<T>(edits: Seq<Edit<T>>) -> nat
    decreases edits.len(),
{
    if edits.len() == 0 {
        0
    } else {
        (if edits.first() is Push {
            1nat
        } else {
            0nat
        }) + count_pushes(edits.drop_first())
    }
}

/// The number of removals in a history.
pub open spec fn count_removals<T>(edits: Seq<Edit<T>>) -> nat
    decreases edits.len(),
{
    if edits.len() == 0 {
        0
    } else {
        (if edits.first() is Remove {
            1nat
        } else {
            0nat
        }) + count_removals(edits.drop_first())
    }
}

/// The length counts pushes against removals: after any interleaving of
/// pushes and of removals that each take an element out, the length is what
/// it was, plus the number of pushes, minus the number of removals.
pub proof fn lemma_length_counts_edits<T>(elements: Seq<T>, edits: Seq<Edit<T>>)
    requires
        removals_in_range(elements, edits),
    ensures
        after_edits(elements, edits).len() == elements.len() + count_pushes(edits)
            - count_removals(edits),
    decreases edits.len(),
{
    if edits.len() > 0 {
        lemma_length_counts_edits(after_edit(elements, edits.first()), edits.drop_first());
    }
}

/// Started empty, a vector that has seen `n` pushes and `m` removals, each of
/// which took an element out, holds `n - m` elements.
pub proof fn lemma_length_is_pushes_less_removals<T>(edits: Seq<Edit<T>>)
    requires
        removals_in_range(Seq::<T>::empty(), edits),
    ensures
        count_removals(edits) <= count_pushes(edits),
        after_edits(Seq::<T>::empty(), edits).len() == count_pushes(edits) - count_removals(
            edits,
        ),
{
    lemma_length_counts_edits(Seq::<T>::empty(), edits);
}

} // verus!
