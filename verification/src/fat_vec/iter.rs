//! Walking a hybrid vector from the front, by reference or by value.
use super::policy::GrowthPolicy;
use super::FatVec;
use vstd::prelude::*;

verus! {

/// A cursor over the elements of a hybrid vector, front to back. Making a
/// new one starts over.
pub struct Iter<'a, T, const STACK_CAPACITY: usize, P: GrowthPolicy> {
    idx: usize,
    fatvec: &'a FatVec<T, STACK_CAPACITY, P>,
}

impl<'a, T, const STACK_CAPACITY: usize, P: GrowthPolicy> Iter<'a, T, STACK_CAPACITY, P> {
    /// The elements of the vector that is being walked.
    pub closed spec fn elements(&self) -> Seq<T> {
        self.fatvec@
    }

    /// How many elements have been handed out.
    pub closed spec fn position(&self) -> nat {
        self.idx as nat
    }

    /// The vector is well-formed and the cursor is not past its end.
    pub closed spec fn wf(&self) -> bool {
        &&& self.fatvec.wf()
        &&& self.idx <= self.fatvec@.len()
    }

    /// A cursor at the front of `fatvec`.
    pub fn new(fatvec: &'a FatVec<T, STACK_CAPACITY, P>) -> (r: Self)
        requires
            fatvec.wf(),
        ensures
            r.wf(),
            r.elements() == fatvec@,
            r.position() == 0,
    {
        Iter { idx: 0, fatvec }
    }

    /// The next element, or `None` once every element has been handed out.
    pub fn next(&mut self) -> (r: Option<&'a T>)
        requires
            old(self).wf(),
        ensures
            final(self).wf(),
            final(self).elements() == old(self).elements(),
            old(self).position() < old(self).elements().len() ==> {
                &&& r == Some(&old(self).elements()[old(self).position() as int])
                &&& final(self).position() == old(self).position() + 1
            },
            old(self).position() >= old(self).elements().len() ==> {
                &&& r is None
                &&& final(self).position() == old(self).position()
            },
    {
        let item = self.fatvec.get(self.idx);
        if item.is_some() {
            proof {
                self.fatvec.lemma_packed();
            }
            self.idx += 1;
        }
        item
    }
}

/// A hybrid vector that is being taken apart, from either end.
pub struct IntoIter<T, const STACK_CAPACITY: usize, P: GrowthPolicy> {
    fv: FatVec<T, STACK_CAPACITY, P>,
}

impl<T, const STACK_CAPACITY: usize, P: GrowthPolicy> View for IntoIter<T, STACK_CAPACITY, P> {
    type V = Seq<T>;

    /// The elements not yet handed out, in order.
    closed spec fn view(&self) -> Seq<T> {
        self.fv@
    }
}

impl<T, const STACK_CAPACITY: usize, P: GrowthPolicy> IntoIter<T, STACK_CAPACITY, P> {
    /// The vector inside is well-formed.
    pub closed spec fn wf(&self) -> bool {
        self.fv.wf()
    }

    /// Takes the first remaining element, or `None` if none remains.
    pub fn next(&mut self) -> (r: Option<T>)
        requires
            old(self).wf(),
        ensures
            final(self).wf(),
            old(self)@.len() > 0 ==> r == Some(old(self)@.first()) && final(self)@ == old(self)@.drop_first(),
            old(self)@.len() == 0 ==> r is None && final(self)@ == old(self)@,
    {
        let item = self.fv.remove(0);
        assert(old(self)@.len() > 0 ==> self@ =~= old(self)@.drop_first());
        item
    }

    /// Takes the last remaining element, or `None` if none remains.
    pub fn next_back(&mut self) -> (r: Option<T>)
        requires
            old(self).wf(),
        ensures
            final(self).wf(),
            old(self)@.len() > 0 ==> r == Some(old(self)@.last()) && final(self)@ == old(self)@.drop_last(),
            old(self)@.len() == 0 ==> r is None && final(self)@ == old(self)@,
    {
        self.fv.pop()
    }
}

impl<T, const STACK_CAPACITY: usize, P: GrowthPolicy> FatVec<T, STACK_CAPACITY, P> {
    /// A cursor over the elements, front to back.
    pub fn iter(&self) -> (r: Iter<'_, T, STACK_CAPACITY, P>)
        requires
            self.wf(),
        ensures
            r.wf(),
            r.elements() == self@,
            r.position() == 0,
    {
        Iter::new(self)
    }

    /// Turns the vector into one that hands its elements out by value.
    pub fn into_iter(self) -> (r: IntoIter<T, STACK_CAPACITY, P>)
        requires
            self.wf(),
        ensures
            r.wf(),
            r@ == self@,
    {
        IntoIter { fv: self }
    }
}

} // verus!
