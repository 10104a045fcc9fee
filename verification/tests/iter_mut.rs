use linear_collections::array::map::ArrayMap;
use linear_collections::borrow::{each_mut, each_occupied_mut, firsts_mut, reversed, seconds_mut};
use linear_collections::fallible::{DequeMap, FallibleLinearMap, FallibleLinearSet};
use linear_collections::fallible::{FatMap, FatVec, StackMap, VecMap, VecSet};
use linear_collections::linear_map::LinearMap;
use linear_collections::linear_set::LinearSet;
use linear_collections::stack_list::{RawStackList, StackList};

#[test]
fn fat_vec_iter_mut_reaches_both_parts_in_order() {
    let mut list = FatVec::with_array([1u8, 2]);
    list.push(3).unwrap();
    list.push(4).unwrap();
    let refs = list.iter_mut();
    assert_eq!(refs.len(), 4);
    let mut expected = 1;
    for item in refs {
        assert_eq!(*item, expected);
        *item *= 10;
        expected += 1;
    }
    assert_eq!(list.stack_items(), vec![&10, &20]);
    assert_eq!(list.heap_items(), [30, 40]);
    assert_eq!(list.len(), 4);
    assert!(FatVec::<u8, 2>::new().iter_mut().is_empty());
}

#[test]
fn stack_list_iter_mut_reaches_every_element() {
    let mut list = StackList::<u8, 4>::new();
    list.push(1).unwrap();
    list.push(2).unwrap();
    for item in list.iter_mut() {
        *item += 1;
    }
    assert_eq!(list.iter(), vec![&2, &3]);
    assert_eq!(list.len(), 2);
}

#[test]
fn raw_stack_list_iter_mut_to_leaves_the_other_slots() {
    let mut raw = RawStackList::from_maybe_uninit([Some(1u8), Some(2), Some(3), None]);
    for item in raw.iter_mut_to(2) {
        *item = 0;
    }
    assert_eq!(raw.slot(0), Some(&0));
    assert_eq!(raw.slot(1), Some(&0));
    assert_eq!(raw.slot(2), Some(&3));
    assert_eq!(raw.slot(3), None);
}

#[test]
fn slices_hand_out_their_elements() {
    let mut items = [1u8, 2, 3];
    let refs = each_mut(&mut items);
    let mut back = reversed(refs);
    *back[0] = 30;
    *back[2] = 10;
    assert_eq!(items, [10, 2, 30]);
    let mut slots = [Some('a'), Some('b'), None];
    let mut refs = each_occupied_mut(&mut slots, 2);
    *refs[1] = 'B';
    assert_eq!(slots, [Some('a'), Some('B'), None]);
    let mut pairs = [(1, 'x'), (2, 'y')];
    for second in seconds_mut(each_mut(&mut pairs)) {
        *second = 'z';
    }
    for first in firsts_mut(each_mut(&mut pairs)) {
        *first += 1;
    }
    assert_eq!(pairs, [(2, 'z'), (3, 'z')]);
}

#[test]
fn maps_hand_out_their_entries_keys_and_values() {
    let mut m: VecMap<i32, i32> = VecMap::new();
    m.insert(1, 10).unwrap();
    m.insert(2, 20).unwrap();
    for value in m.values_mut() {
        *value += 1;
    }
    for key in m.keys_mut() {
        *key *= 2;
    }
    for entry in m.iter_mut() {
        entry.1 -= entry.0;
    }
    assert_eq!(m.as_slice(), [(2, 9), (4, 17)]);

    let mut d: DequeMap<i32, i32> = DequeMap::new();
    d.insert(1, 10).unwrap();
    d.insert(2, 20).unwrap();
    d.remove(&1);
    d.insert(3, 30).unwrap();
    for value in d.values_mut() {
        *value += 1;
    }
    assert_eq!(d.iter(), vec![&(2, 21), &(3, 31)]);

    let mut f: FatMap<i32, i32, 1> = FatMap::new();
    f.insert(1, 10).unwrap();
    f.insert(2, 20).unwrap();
    for value in f.values_mut() {
        *value += 1;
    }
    assert_eq!(f.iter(), vec![&(1, 11), &(2, 21)]);

    let mut s: StackMap<i32, i32, 2> = StackMap::new();
    s.insert(1, 10).unwrap();
    for entry in s.iter_mut() {
        entry.1 = 0;
    }
    assert_eq!(s.get(&1), Some(&0));

    let mut a = ArrayMap::from_array_unchecked([(1, 'a'), (2, 'b')]);
    for value in a.values_mut() {
        *value = value.to_ascii_uppercase();
    }
    assert_eq!(a.as_slice(), [(1, 'A'), (2, 'B')]);
}

#[test]
fn sets_hand_out_their_elements() {
    let mut set: VecSet<u8> = VecSet::new();
    set.insert(1).unwrap();
    set.insert(2).unwrap();
    for value in set.values_mut() {
        *value += 10;
    }
    assert_eq!(set.values(), vec![&11, &12]);
    assert!(set.contains(&12));
    assert!(!set.contains(&2));
}
