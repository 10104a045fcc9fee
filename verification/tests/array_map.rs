use linear_collections::array::map::ArrayMap;
use linear_collections::linear_map::LinearMap;
use linear_collections::linear_set::LinearSet;
use linear_collections::panicking::{VecMap, VecSet};

#[test]
fn array_map_empty() {
    let map = ArrayMap::from_array_unchecked([("k", "v")]);
    assert!(!map.is_empty());
    let none: ArrayMap<&str, &str, 0> = ArrayMap::from_array_unchecked([]);
    assert!(none.is_empty());
    assert_eq!(none.len(), 0);
    assert_eq!(none.get(&"k"), None);
}

#[test]
fn test_array_map_one() {
    let map = ArrayMap::from_array_unchecked([("k", "v")]);
    assert_eq!(map.len(), 1);
    assert_eq!(map.get(&"k"), Some(&"v"));
    assert_eq!(map.get(&"j"), None);
}

#[test]
fn test_array_map_many() {
    let map = ArrayMap::from_array_unchecked([(0, "v0"), (1, "v1"), (2, "v2"), (3, "v3")]);
    assert_eq!(map.len(), 4);
    assert_eq!(map.get(&0), Some(&"v0"));
    assert_eq!(map.get(&5), None);
}

#[test]
fn array_map_string_literal_with_prefix() {
    let map = ArrayMap::from_array_unchecked([(r"t", 1), ("u", 2)]);
    assert_eq!(map.get(&"t"), Some(&1));
    assert_eq!(map.get(&r"u"), Some(&2));
}

#[test]
fn mod_array_map_one() {
    let map = ArrayMap::from_array_unchecked([("k", "v")]);
    assert_eq!(map.len(), 1);
    assert_eq!(map.get(&"k"), Some(&"v"));
    assert_eq!(map.get(&"j"), None);
}

#[test]
fn mod_array_map_many() {
    let map = ArrayMap::from_array_unchecked([(0, "v0"), (1, "v1"), (2, "v2"), (3, "v3")]);
    assert_eq!(map.len(), 4);
    assert_eq!(map.get(&0), Some(&"v0"));
    assert_eq!(map.get(&5), None);
}

#[test]
fn vec_map_one() {
    let map: VecMap<&str, &str> = VecMap::from_vec_unchecked(vec![("k", "v")]);
    assert_eq!(map.len(), 1);
    assert_eq!(map.get(&"k"), Some(&"v"));
    assert_eq!(map.get(&"j"), None);
}

#[test]
fn mod_vec_map_many() {
    let map: VecMap<i32, &str> =
        VecMap::from_vec_unchecked(vec![(0, "v0"), (1, "v1"), (2, "v2"), (3, "v3")]);
    assert_eq!(map.len(), 4);
    assert_eq!(map.get(&0), Some(&"v0"));
    assert_eq!(map.get(&5), None);
}

#[test]
fn vec_set_one() {
    let set: VecSet<i32> = VecSet::from_map_unchecked(VecMap::from_vec_unchecked(vec![(0, ())]));

    assert_eq!(set.contains(&0), true);
    assert_eq!(set.contains(&1), false);
    assert_eq!(set.len(), 1);
}

#[test]
fn mod_vec_set_many() {
    let set: VecSet<i32> = VecSet::from_map_unchecked(VecMap::from_vec_unchecked(vec![
        (0, ()),
        (1, ()),
        (2, ()),
        (3, ()),
        (4, ()),
        (5, ()),
    ]));

    assert_eq!(set.contains(&0), true);
    assert_eq!(set.contains(&1), true);
    assert_eq!(set.contains(&2), true);
    assert_eq!(set.contains(&3), true);
    assert_eq!(set.contains(&4), true);
    assert_eq!(set.contains(&5), true);
    assert_eq!(set.contains(&6), false);
    assert_eq!(set.len(), 6);
}

#[test]
fn array_map_first_of_equal_keys_wins() {
    let mut map = ArrayMap::from_array_unchecked([(1, "first"), (2, "two"), (1, "second")]);
    assert_eq!(map.position(&1), Some(0));
    assert_eq!(map.position(&2), Some(1));
    assert_eq!(map.position(&3), None);
    assert_eq!(map.get(&1), Some(&"first"));
    match map.get_mut(&1) {
        Some(value) => *value = "changed",
        None => panic!(),
    }
    assert!(map.get_mut(&7).is_none());
    assert_eq!(map.as_slice(), [(1, "changed"), (2, "two"), (1, "second")]);
}

#[test]
fn array_map_walks_in_order() {
    let map = ArrayMap::from_array_unchecked([(3, 'c'), (1, 'a'), (2, 'b')]);
    assert_eq!(map.iter(), vec![&(3, 'c'), &(1, 'a'), &(2, 'b')]);
    assert_eq!(map.keys(), vec![&3, &1, &2]);
    assert_eq!(map.values(), vec![&'c', &'a', &'b']);
    assert_eq!(map.into_inner(), [(3, 'c'), (1, 'a'), (2, 'b')]);
}

#[test]
fn array_map_len_is_const() {
    fn foo() -> usize {
        let f = ArrayMap::from_array_unchecked([(1, 1)]);

        f.len()
    }

    assert_eq!(foo(), 1);
}

#[test]
fn array_map_is_empty_is_const() {
    fn foo() -> bool {
        let f = ArrayMap::from_array_unchecked([(1, 1)]);

        f.is_empty()
    }

    assert_eq!(foo(), false);
}

#[test]
fn from_array_unchecked_is_const() {
    fn foo() {
        let _ = ArrayMap::from_array_unchecked([(1, 1)]);
    }
    foo();
}
