//! Handing out mutable references to every element of a slice at once.
use vstd::prelude::*;

verus! {

/// Mutable references to the elements of `items`, in order. What the caller
/// leaves behind the references is what the slice holds afterwards.
pub fn each_mut<T>(items: &mut [T]) -> (r: Vec<&mut T>)
    ensures
        r@.len() == old(items)@.len(),
        forall|i: int| 0 <= i < r@.len() ==> *(#[trigger] r@[i]) == old(items)@[i],
        final(items)@ == Seq::new(r@.len(), |i: int| *final(r@[i])),
{
    let ghost start = old(items)@;
    let ghost end = final(items)@;
    let length = items.len();
    let mut refs: Vec<&mut T> = Vec::new();
    let mut rest: &mut [T] = items;
    let mut i: usize = 0;
    assert(Seq::new(0 as nat, |j: int| *final(refs@[j])) + final(rest)@ =~= final(rest)@);
    while i < length
        invariant
            i <= length,
            length == start.len(),
            refs@.len() == i,
            rest@ == start.subrange(i as int, start.len() as int),
            forall|j: int| 0 <= j < i ==> *(#[trigger] refs@[j]) == start[j],
            end == Seq::new(i as nat, |j: int| *final(refs@[j])) + final(rest)@,
        decreases length - i,
    {
        let whole = rest;
        let (head, tail) = whole.split_at_mut(1);
        let item = head.first_mut().unwrap();
        let ghost before = Seq::new(i as nat, |j: int| *final(refs@[j]));
        refs.push(item);
        rest = tail;
        proof {
            assert(rest@ =~= start.subrange(i + 1, start.len() as int));
            let after = Seq::new((i + 1) as nat, |j: int| *final(refs@[j]));
            assert(after =~= before.push(*final(refs@[i as int])));
            assert(end =~= after + final(rest)@);
        }
        i += 1;
    }
    assert(end =~= Seq::new(refs@.len(), |j: int| *final(refs@[j])));
    refs
}

/// Mutable references to the elements of the first `limit` slots, which
/// must all be occupied, in order. What the caller leaves behind the
/// references is what those slots hold afterwards; the other slots stay as
/// they are.
pub fn each_occupied_mut<T>(slots: &mut [Option<T>], limit: usize) -> (r: Vec<&mut T>)
    requires
        limit <= old(slots)@.len(),
        forall|i: int| 0 <= i < limit ==> (#[trigger] old(slots)@[i]) is Some,
    ensures
        r@.len() == limit,
        forall|i: int| 0 <= i < limit ==> *(#[trigger] r@[i]) == old(slots)@[i].unwrap(),
        final(slots)@ == Seq::new(limit as nat, |i: int| Some(*final(r@[i]))) + old(slots)@.subrange(limit as int, old(slots)@.len() as int),
{
    let ghost start = old(slots)@;
    let ghost end = final(slots)@;
    let mut refs: Vec<&mut T> = Vec::new();
    let mut rest: &mut [Option<T>] = slots;
    let mut i: usize = 0;
    assert(Seq::new(0 as nat, |j: int| Some(*final(refs@[j]))) + final(rest)@ =~= final(rest)@);
    while i < limit
        invariant
            i <= limit <= start.len(),
            refs@.len() == i,
            rest@ == start.subrange(i as int, start.len() as int),
            forall|j: int| 0 <= j < limit ==> (#[trigger] start[j]) is Some,
            forall|j: int| 0 <= j < i ==> *(#[trigger] refs@[j]) == start[j].unwrap(),
            end == Seq::new(i as nat, |j: int| Some(*final(refs@[j]))) + final(rest)@,
        decreases limit - i,
    {
        let whole = rest;
        let (head, tail) = whole.split_at_mut(1);
        let slot = head.first_mut().unwrap();
        let item = slot.as_mut().unwrap();
        let ghost before = Seq::new(i as nat, |j: int| Some(*final(refs@[j])));
        refs.push(item);
        rest = tail;
        proof {
            assert(rest@ =~= start.subrange(i + 1, start.len() as int));
            let after = Seq::new((i + 1) as nat, |j: int| Some(*final(refs@[j])));
            assert(after =~= before.push(Some(*final(refs@[i as int]))));
            assert(end =~= after + final(rest)@);
        }
        i += 1;
    }
    refs
}

/// The references in reverse order: each stands for the place that it
/// stood for before.
pub fn reversed<'a, T>(refs: Vec<&'a mut T>) -> (r: Vec<&'a mut T>)
    ensures
        r@.len() == refs@.len(),
        forall|i: int|
            0 <= i < r@.len() ==> *(#[trigger] r@[i]) == *refs@[refs@.len() - 1 - i]
                && *final(r@[i]) == *final(refs@[refs@.len() - 1 - i]),
{
    let mut refs = refs;
    let ghost start = refs@;
    let mut out: Vec<&'a mut T> = Vec::new();
    while refs.len() > 0
        invariant
            refs@.len() + out@.len() == start.len(),
            refs@ == start.subrange(0, refs@.len() as int),
            forall|i: int|
                0 <= i < out@.len() ==> *(#[trigger] out@[i]) == *start[start.len() - 1 - i]
                    && *final(out@[i]) == *final(start[start.len() - 1 - i]),
        decreases refs@.len(),
    {
        let last = refs.pop().unwrap();
        out.push(last);
    }
    out
}

/// Mutable references to the second components of the pairs behind
/// `entries`, in order. The first components stay as they are, and what the
/// caller leaves behind the references is what the second components are
/// afterwards.
pub fn seconds_mut<'a, K, V>(entries: Vec<&'a mut (K, V)>) -> (r: Vec<&'a mut V>)
    ensures
        r@.len() == entries@.len(),
        forall|i: int| 0 <= i < r@.len() ==> *(#[trigger] r@[i]) == (*entries@[i]).1,
        forall|i: int|
            0 <= i < r@.len() ==> *final(#[trigger] entries@[i]) == ((*entries@[i]).0, *final(r@[i])),
{
    let ghost start = entries@;
    let mut rest = reversed(entries);
    let mut out: Vec<&'a mut V> = Vec::new();
    while rest.len() > 0
        invariant
            rest@.len() + out@.len() == start.len(),
            forall|i: int|
                0 <= i < rest@.len() ==> *(#[trigger] rest@[i]) == *start[start.len() - 1 - i]
                    && *final(rest@[i]) == *final(start[start.len() - 1 - i]),
            forall|i: int| 0 <= i < out@.len() ==> *(#[trigger] out@[i]) == (*start[i]).1,
            forall|i: int|
                0 <= i < out@.len() ==> *final(#[trigger] start[i]) == ((*start[i]).0, *final(out@[i])),
        decreases rest@.len(),
    {
        let entry = rest.pop().unwrap();
        out.push(&mut entry.1);
    }
    out
}

/// Mutable references to the first components of the pairs behind
/// `entries`, in order. The second components stay as they are, and what
/// the caller leaves behind the references is what the first components are
/// afterwards.
pub fn firsts_mut<'a, K, V>(entries: Vec<&'a mut (K, V)>) -> (r: Vec<&'a mut K>)
    ensures
        r@.len() == entries@.len(),
        forall|i: int| 0 <= i < r@.len() ==> *(#[trigger] r@[i]) == (*entries@[i]).0,
        forall|i: int|
            0 <= i < r@.len() ==> *final(#[trigger] entries@[i]) == (*final(r@[i]), (*entries@[i]).1),
{
    let ghost start = entries@;
    let mut rest = reversed(entries);
    let mut out: Vec<&'a mut K> = Vec::new();
    while rest.len() > 0
        invariant
            rest@.len() + out@.len() == start.len(),
            forall|i: int|
                0 <= i < rest@.len() ==> *(#[trigger] rest@[i]) == *start[start.len() - 1 - i]
                    && *final(rest@[i]) == *final(start[start.len() - 1 - i]),
            forall|i: int| 0 <= i < out@.len() ==> *(#[trigger] out@[i]) == (*start[i]).0,
            forall|i: int|
                0 <= i < out@.len() ==> *final(#[trigger] start[i]) == (*final(out@[i]), (*start[i]).1),
        decreases rest@.len(),
    {
        let entry = rest.pop().unwrap();
        out.push(&mut entry.0);
    }
    out
}

} // verus!
