use linear_collections::fallible::error::AllocationError;
use linear_collections::fat_vec::policy::{
    reservation_fits, Capped, Fallible, GrowthPolicy, Panicking,
};
use linear_collections::fat_vec::FatVec;

#[test]
fn push_past_the_inline_part_is_refused_when_the_heap_is_exhausted() {
    let mut list: FatVec<&str, 2, Capped<0>> = FatVec::new();
    assert_eq!(list.try_push("a"), Ok(()));
    assert_eq!(list.try_push("b"), Ok(()));
    assert_eq!(list.try_push("c"), Err(AllocationError::OOM));
    assert_eq!(list.len(), 2);
    assert_eq!(list.stack_items(), vec![&"a", &"b"]);
    assert!(list.heap_items().is_empty());
    assert_eq!(list.get(2), None);
    assert_eq!(list.try_reserve(1), Err(AllocationError::OOM));
    assert_eq!(list.try_reserve(0), Ok(()));
    assert_eq!(list.len(), 2);

    assert_eq!(list.pop(), Some("b"));
    assert_eq!(list.try_push("c"), Ok(()));
    assert_eq!(list.try_push("d"), Err(AllocationError::OOM));
    assert_eq!(list.stack_items(), vec![&"a", &"c"]);
}

#[test]
fn push_is_refused_once_the_heap_budget_is_spent() {
    let mut list: FatVec<u8, 2, Capped<3>> = FatVec::with_array([1, 2]);
    assert_eq!(list.try_push(3), Ok(()));
    assert_eq!(list.try_push(4), Ok(()));
    assert_eq!(list.try_reserve(2), Err(AllocationError::OOM));
    assert_eq!(list.try_reserve(1), Ok(()));
    assert_eq!(list.try_push(5), Ok(()));
    assert_eq!(list.try_push(6), Err(AllocationError::OOM));
    assert_eq!(list.len(), 5);
    assert_eq!(list.stack_items(), vec![&1, &2]);
    assert_eq!(list.heap_items(), [3, 4, 5]);

    assert_eq!(list.remove(0), Some(1));
    assert_eq!(list.stack_items(), vec![&2, &3]);
    assert_eq!(list.heap_items(), [4, 5]);
    assert_eq!(list.try_push(6), Ok(()));
    assert_eq!(list.try_push(7), Err(AllocationError::OOM));
    assert_eq!(list.heap_items(), [4, 5, 6]);
}

#[test]
fn capacity_beyond_the_heap_budget_is_refused() {
    assert_eq!(
        FatVec::<u8, 2, Capped<3>>::try_with_heap_capacity(4).err(),
        Some(AllocationError::OOM)
    );
    assert_eq!(FatVec::<u8, 2, Capped<3>>::try_with_capacity(6).err(), Some(AllocationError::OOM));
    assert_eq!(FatVec::<u8, 2, Capped<3>>::try_with_capacity(5).unwrap().capacity(), 5);
    assert_eq!(FatVec::<u8, 2, Capped<3>>::try_with_heap_capacity(0).unwrap().capacity(), 2);
}

#[test]
fn policies_answer_for_a_bare_vector() {
    let mut spill: Vec<u8> = Vec::new();
    assert_eq!(Fallible::make_room(&mut spill), Ok(()));
    assert!(spill.capacity() >= 1);
    assert_eq!(Fallible::reserve(&mut spill, usize::MAX), Err(AllocationError::CollectionRefused));
    assert_eq!(Fallible::allocate::<u8>(7).unwrap().capacity(), 7);
    assert_eq!(Panicking::make_room(&mut spill), Ok(()));
    assert_eq!(Panicking::reserve(&mut spill, 9), Ok(()));
    assert!(spill.capacity() >= 9);
    assert_eq!(Panicking::allocate::<u8>(7).unwrap().capacity(), 7);
    assert_eq!(Capped::<1>::make_room(&mut spill), Ok(()));
    spill.push(1);
    assert_eq!(Capped::<1>::make_room(&mut spill), Err(AllocationError::OOM));
    assert_eq!(Capped::<1>::reserve(&mut spill, 1), Err(AllocationError::OOM));
    assert_eq!(Capped::<1>::reserve(&mut spill, usize::MAX), Err(AllocationError::OOM));
    assert_eq!(Capped::<1>::allocate::<u8>(2).err(), Some(AllocationError::OOM));
    assert!(spill == vec![1]);
}

#[test]
fn requests_out_of_range_are_told_from_those_in_range() {
    let most = isize::MAX as usize;
    assert!(reservation_fits::<u8>(0, 0));
    assert!(reservation_fits::<u8>(0, most));
    assert!(!reservation_fits::<u8>(0, most + 1));
    assert!(!reservation_fits::<u8>(1, most));
    assert!(reservation_fits::<u64>(0, most / 8));
    assert!(!reservation_fits::<u64>(1, most / 8));
    assert!(!reservation_fits::<u64>(0, usize::MAX));
    assert!(!reservation_fits::<u64>(usize::MAX, 1));
    assert!(reservation_fits::<()>(usize::MAX, 0));
    assert!(reservation_fits::<()>(usize::MAX - 1, 1));
    assert!(!reservation_fits::<()>(usize::MAX, 1));
}

#[test]
fn the_collection_refuses_what_is_out_of_range_and_the_allocator_the_rest() {
    let most = isize::MAX as usize;
    let mut spill: Vec<u8> = vec![1, 2];
    assert_eq!(Fallible::reserve(&mut spill, most - 1), Err(AllocationError::CollectionRefused));
    assert_eq!(Fallible::reserve(&mut spill, most - 2), Err(AllocationError::OSRefused));
    assert_eq!(Fallible::reserve(&mut spill, 0), Ok(()));
    assert_eq!(Fallible::allocate::<u8>(most + 1).err(), Some(AllocationError::CollectionRefused));
    assert_eq!(Fallible::allocate::<u8>(most).err(), Some(AllocationError::OSRefused));
    assert_eq!(Capped::<9>::reserve(&mut spill, most - 1), Err(AllocationError::OOM));
    assert!(spill == vec![1, 2]);

    let mut list: FatVec<u16, 1, Fallible> = FatVec::new();
    list.try_push(1).unwrap();
    list.try_push(2).unwrap();
    assert_eq!(list.reserve(most / 2), Err(AllocationError::CollectionRefused));
    assert_eq!(list.reserve(most / 2 - 1), Err(AllocationError::OSRefused));
    assert_eq!(list.len(), 2);
    assert_eq!(list.heap_items(), [2]);
}
