//! Validating a map written out as a literal: a list of key-value pairs in
//! which no key may occur twice. The keys are compared as they are written.
use vstd::prelude::*;

verus! {

/// One element of a map literal: the text of its first component and the
/// number of components it has.
#[derive(Debug)]
pub struct LiteralElement {
    /// The key as it is written. Empty where the element has no component.
    pub key: String,
    /// The number of components. A key-value pair has two.
    pub arity: usize,
}

/// Why a map literal is refused.
#[derive(Debug)]
pub enum LiteralError {
    /// The literal has no element.
    Empty,
    /// An element is not a pair: its index and the number of its components.
    WrongArity { element: usize, count: usize },
    /// Keys occur more than once: each occurrence of a key after its first,
    /// in the order of the literal.
    DuplicateKeys(Vec<String>),
}

/// The keys of the elements, in order, as sequences of characters.
pub open spec fn key_texts(elements: Seq<LiteralElement>) -> Seq<Seq<char>> {
    Seq::new(elements.len(), |i: int| elements[i].key@)
}

/// The texts of the strings, in order.
pub open spec fn texts(strings: Seq<String>) -> Seq<Seq<char>> {
    Seq::new(strings.len(), |i: int| strings[i]@)
}

/// The key at index `i` occurs at a lower index too.
pub open spec fn seen_before(keys: Seq<Seq<char>>, i: int) -> bool {
    exists|j: int| 0 <= j < i && #[trigger] keys[j] == keys[i]
}

/// Each occurrence of a key after its first, in order.
pub open spec fn duplicates_of(keys: Seq<Seq<char>>) -> Seq<Seq<char>>
    decreases keys.len(),
{
    if keys.len() == 0 {
        Seq::empty()
    } else if seen_before(keys, keys.len() - 1) {
        duplicates_of(keys.drop_last()).push(keys.last())
    } else {
        duplicates_of(keys.drop_last())
    }
}

/// Element `i` is the first that is not a pair.
pub open spec fn is_first_misshapen(elements: Seq<LiteralElement>, i: int) -> bool {
    &&& 0 <= i < elements.len()
    &&& elements[i].arity != 2
    &&& forall|j: int| 0 <= j < i ==> (#[trigger] elements[j]).arity == 2
}

/// Every element is a pair.
pub open spec fn all_pairs(elements: Seq<LiteralElement>) -> bool {
    forall|i: int| 0 <= i < elements.len() ==> (#[trigger] elements[i]).arity == 2
}

/// No key occurs twice exactly when there is no occurrence after a first.
pub proof fn lemma_no_duplicates_means_distinct(keys: Seq<Seq<char>>)
    ensures
        duplicates_of(keys).len() == 0 <==> forall|i: int, j: int|
            0 <= i < j < keys.len() ==> keys[i] != keys[j],
    decreases keys.len(),
{
    if keys.len() > 0 {
        let rest = keys.drop_last();
        let last = keys.len() - 1;
        lemma_no_duplicates_means_distinct(rest);
        if duplicates_of(keys).len() == 0 {
            assert(!seen_before(keys, last));
            assert forall|i: int, j: int| 0 <= i < j < keys.len() implies keys[i] != keys[j] by {
                if j < last {
                    assert(rest[i] == keys[i] && rest[j] == keys[j]);
                } else {
                    assert(keys[i] != keys[last]);
                }
            }
        }
        if forall|i: int, j: int| 0 <= i < j < keys.len() ==> keys[i] != keys[j] {
            assert forall|i: int, j: int| 0 <= i < j < rest.len() implies rest[i] != rest[j] by {
                assert(rest[i] == keys[i] && rest[j] == keys[j]);
            }
            assert(!seen_before(keys, last));
        }
    }
}

/// Whether `key` is the text of one of the first `limit` elements.
fn occurs_before(elements: &Vec<LiteralElement>, limit: usize, key: &String) -> (r: bool)
    requires
        limit <= elements@.len(),
    ensures
        r == exists|j: int| 0 <= j < limit && (#[trigger] elements@[j]).key@ == key@,
{
    let mut j: usize = 0;
    while j < limit
        invariant
            j <= limit <= elements@.len(),
            forall|k: int| 0 <= k < j ==> (#[trigger] elements@[k]).key@ != key@,
        decreases limit - j,
    {
        if elements[j].key == *key {
            return true;
        }
        j += 1;
    }
    false
}

/// Validates a map literal. It is refused where it is empty; else where an
/// element is not a pair, naming the first such element; else where a key
/// occurs more than once, naming each occurrence after the first.
pub fn validate_map_literal(elements: &Vec<LiteralElement>) -> (r: Result<(), LiteralError>)
    ensures
        elements@.len() == 0 ==> r matches Err(LiteralError::Empty),
        elements@.len() > 0 && !all_pairs(elements@) ==> (match r {
            Err(LiteralError::WrongArity { element, count }) => {
                &&& is_first_misshapen(elements@, element as int)
                &&& count == elements@[element as int].arity
            },
            _ => false,
        }),
        elements@.len() > 0 && all_pairs(elements@) && duplicates_of(key_texts(elements@)).len() > 0
            ==> (match r {
            Err(LiteralError::DuplicateKeys(keys)) => texts(keys@) == duplicates_of(
                key_texts(elements@),
            ),
            _ => false,
        }),
        elements@.len() > 0 && all_pairs(elements@) && duplicates_of(key_texts(elements@)).len()
            == 0 ==> r is Ok,
{
    let length = elements.len();
    if length == 0 {
        return Err(LiteralError::Empty);
    }
    let ghost keys = key_texts(elements@);
    let mut duplicates: Vec<String> = Vec::new();
    let mut i: usize = 0;
    while i < length
        invariant
            length == elements@.len(),
            keys == key_texts(elements@),
            i <= length,
            forall|j: int| 0 <= j < i ==> (#[trigger] elements@[j]).arity == 2,
            texts(duplicates@) == duplicates_of(keys.subrange(0, i as int)),
        decreases length - i,
    {
        let element = &elements[i];
        if element.arity != 2 {
            return Err(LiteralError::WrongArity { element: i, count: element.arity });
        }
        let seen = occurs_before(elements, i, &element.key);
        proof {
            let upto = keys.subrange(0, i + 1);
            assert(upto.drop_last() =~= keys.subrange(0, i as int));
            assert(upto.last() == element.key@);
            if seen {
                let j = choose|j: int| 0 <= j < i && (#[trigger] elements@[j]).key@ == element.key@;
                assert(upto[j] == upto[i as int]);
                assert(seen_before(upto, i as int));
            } else {
                assert forall|j: int| 0 <= j < i implies #[trigger] upto[j] != upto[i as int] by {
                    assert(elements@[j].key@ != element.key@);
                }
            }
        }
        if seen {
            let ghost before = texts(duplicates@);
            duplicates.push(element.key.clone());
            assert(texts(duplicates@) =~= before.push(element.key@));
        }
        i += 1;
    }
    proof {
        assert(keys.subrange(0, i as int) =~= keys);
    }
    if duplicates.len() > 0 {
        Err(LiteralError::DuplicateKeys(duplicates))
    } else {
        Ok(())
    }
}

} // verus!
