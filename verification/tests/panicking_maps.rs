use linear_collections::linear_map::LinearMap;
use linear_collections::panicking::PanickingLinearMap;
use linear_collections::panicking::{DequeMap, FatMap};
use std::collections::VecDeque;

#[test]
fn panicking_deque_map_inserts_overwrites_and_removes() {
    let mut m: DequeMap<i32, &str> = DequeMap::with_capacity(2);
    assert_eq!(m.insert(1, "one"), None);
    assert_eq!(m.insert(2, "two"), None);
    assert_eq!(m.insert(3, "three"), None);
    assert_eq!(m.insert(2, "zwei"), Some("two"));
    assert_eq!(m.len(), 3);
    assert_eq!(m.get(&2), Some(&"zwei"));
    assert_eq!(m.remove(&1), Some("one"));
    assert_eq!(m.remove(&1), None);
    assert!(m.contains_key(&3));
    assert_eq!(m.into_inner(), VecDeque::from(vec![(2, "zwei"), (3, "three")]));
}

#[test]
fn panicking_fat_map_crosses_onto_the_heap() {
    let mut m: FatMap<i32, i32, 1> = FatMap::with_heap_capacity(1);
    assert_eq!(m.insert(1, 10), None);
    assert_eq!(m.insert(2, 20), None);
    assert_eq!(m.insert(3, 30), None);
    assert_eq!(m.insert(2, 21), Some(20));
    assert_eq!(m.remove_entry(&1), Some((1, 10)));
    assert_eq!(m.keys(), vec![&2, &3]);
    assert_eq!(m.values(), vec![&21, &30]);
    let store = m.into_inner();
    assert_eq!(store.stack_items(), vec![&(2, 21)]);
    assert_eq!(store.heap_items(), [(3, 30)]);
    let sized: FatMap<i32, i32, 4> = FatMap::with_capacity(10);
    assert_eq!(sized.into_inner().capacity(), 10);
}
