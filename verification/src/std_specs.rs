//! Contracts for the standard-library functions this crate calls and `vstd`
//! leaves unspecified. Each one is believed without proof; the comment above
//! it says what is claimed of the function.
use std::collections::{TryReserveError, VecDeque};
use vstd::prelude::*;

verus! {

/// `core::array::from_fn`: builds an array whose element at each index is
/// what the closure returns for that index. The closure must accept every
/// index below the array's length.
pub assume_specification<Elem, const N: usize, F: FnMut(usize) -> Elem>[ core::array::from_fn ](
    f: F,
) -> (r: [Elem; N])
    requires
        forall|i: usize| i < N ==> call_requires(f, (i,)),
    ensures
        forall|i: int| 0 <= i < N ==> call_ensures(f, (i as usize,), #[trigger] r@[i]),
;

/// `<[T; N]>::map`, called with `Some`: consumes an array and returns one of
/// the same length whose element at each index is `Some` of the element of
/// the input at that index.
#[verifier::external_body]
pub(crate) fn array_map_some<T, const N: usize>(array: [T; N]) -> (r: [Option<T>; N])
    ensures
        forall|i: int| 0 <= i < N ==> #[trigger] r@[i] == Some(array@[i]),
{
    array.map(Some)
}

/// `Vec::capacity`: the number of elements the vector can hold without
/// reallocating, which is never less than the number it holds.
#[verifier::external_body]
pub(crate) fn vec_capacity<T>(vec: &Vec<T>) -> (r: usize)
    ensures
        r >= vec@.len(),
{
    vec.capacity()
}

/// `Vec::try_reserve_exact`: tries to make room for `additional` more
/// elements and reports a failure instead of aborting. It does nothing where
/// the capacity already suffices, as it always does for no more elements.
/// The elements are the same afterwards, whether it succeeded or not.
#[verifier::external_body]
pub(crate) fn vec_try_reserve_exact<T>(vec: &mut Vec<T>, additional: usize) -> (r: Result<
    (),
    TryReserveError,
>)
    ensures
        final(vec)@ == old(vec)@,
        additional == 0 ==> r is Ok,
{
    vec.try_reserve_exact(additional)
}

/// Whether a vector of `len` elements of `elem_size` bytes each can be asked
/// to make room for `additional` more without the request itself being out
/// of range: the new length fits in `usize` and its size in bytes in `isize`.
pub open spec fn reservation_in_range(len: nat, additional: nat, elem_size: nat) -> bool {
    &&& len + additional <= usize::MAX
    &&& (len + additional) * elem_size <= isize::MAX
}

/// `Vec::reserve_exact`: makes room for `additional` more elements, and
/// aborts the process if the allocator fails. It panics where the new
/// capacity is out of range, so such requests are left out. The elements are
/// the same afterwards.
#[verifier::external_body]
pub(crate) fn vec_reserve_exact<T>(vec: &mut Vec<T>, additional: usize)
    requires
        reservation_in_range(old(vec)@.len(), additional as nat, vstd::layout::size_of::<T>()),
    ensures
        final(vec)@ == old(vec)@,
{
    vec.reserve_exact(additional)
}

/// `Vec::shrink_to_fit`: gives spare capacity back. The elements are the
/// same afterwards.
#[verifier::external_body]
pub(crate) fn vec_shrink_to_fit<T>(vec: &mut Vec<T>)
    ensures
        final(vec)@ == old(vec)@,
{
    vec.shrink_to_fit()
}

/// `VecDeque::capacity`: the number of elements the deque can hold without
/// reallocating, which is never less than the number it holds.
#[verifier::external_body]
pub(crate) fn deque_capacity<T>(deque: &VecDeque<T>) -> (r: usize)
    ensures
        r >= deque@.len(),
{
    deque.capacity()
}

/// `VecDeque::try_reserve`: tries to make room for `additional` more
/// elements and reports a failure instead of aborting. The elements are the
/// same afterwards, whether it succeeded or not.
#[verifier::external_body]
pub(crate) fn deque_try_reserve<T>(deque: &mut VecDeque<T>, additional: usize) -> (r: Result<
    (),
    TryReserveError,
>)
    ensures
        final(deque)@ == old(deque)@,
{
    deque.try_reserve(additional)
}

/// `VecDeque::get_mut`: the element at `index` for writing, or `None` if
/// the index is out of bounds. No other element changes.
#[verifier::external_body]
pub(crate) fn deque_get_mut<T>(deque: &mut VecDeque<T>, index: usize) -> (r: Option<&mut T>)
    ensures
        index >= old(deque)@.len() ==> r is None && final(deque)@ == old(deque)@,
        index < old(deque)@.len() ==> r is Some && *r.unwrap() == old(deque)@[index as int]
            && final(deque)@ == old(deque)@.update(index as int, *final(r.unwrap())),
{
    deque.get_mut(index)
}

/// `VecDeque::make_contiguous`: rearranges the storage of the deque so that
/// its elements lie in one slice, and returns that slice. The order of the
/// elements is not changed, and what the caller leaves in the slice is what
/// the deque holds afterwards.
#[verifier::external_body]
pub(crate) fn deque_make_contiguous<T>(deque: &mut VecDeque<T>) -> (r: &mut [T])
    ensures
        r@ == old(deque)@,
        final(r)@ == final(deque)@,
{
    deque.make_contiguous()
}

/// What a failed reservation prints of itself when formatted for debugging.
pub uninterp spec fn debug_text(error: TryReserveError) -> Seq<char>;

/// `<TryReserveError as Debug>::fmt`: the text that the error prints of
/// itself when formatted for debugging. The same error prints the same text.
#[verifier::external_body]
pub(crate) fn reserve_error_debug(error: &TryReserveError) -> (r: String)
    ensures
        r@ == debug_text(*error),
{
    format!("{:?}", error)
}

/// `needle` stands somewhere in `haystack`, character for character.
pub open spec fn occurs_in(needle: Seq<char>, haystack: Seq<char>) -> bool {
    exists|i: int|
        0 <= i && i + needle.len() <= haystack.len() && #[trigger] haystack.subrange(
            i,
            i + needle.len(),
        ) == needle
}

/// `str::contains`, called with a string: whether the second string matches
/// a part of the first.
#[verifier::external_body]
pub(crate) fn str_contains(haystack: &str, needle: &str) -> (r: bool)
    ensures
        r == occurs_in(needle@, haystack@),
{
    haystack.contains(needle)
}

} // verus!
