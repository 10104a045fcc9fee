use linear_collections::stack_list::error::PushError;
use linear_collections::stack_list::StackList;

#[test]
fn remove_start_is_same_as_vec() {
    let one = "one";
    let two = "two";
    let three = "three";
    let four = "four";
    let five = "five";

    let mut vec = vec![one, two, three, four, five];

    let mut arrvec = StackList::<&str, 5>::new();

    arrvec.push(one).unwrap();
    arrvec.push(two).unwrap();
    arrvec.push(three).unwrap();
    arrvec.push(four).unwrap();
    arrvec.push(five).unwrap();

    let (from_vec, from_arr) = (vec.remove(0), arrvec.remove(0).unwrap());

    assert_eq!(from_vec, from_arr);

    let remaining = arrvec.iter().into_iter().map(|t| *t).collect::<Vec<&str>>();

    assert_eq!(vec, remaining);
}

#[test]
fn remove_mid_is_same_as_vec() {
    let one = "one";
    let two = "two";
    let three = "three";
    let four = "four";
    let five = "five";

    let mut vec = vec![one, two, three, four, five];

    let mut arrvec = StackList::<&str, 5>::new();

    arrvec.push(one).unwrap();
    arrvec.push(two).unwrap();
    arrvec.push(three).unwrap();
    arrvec.push(four).unwrap();
    arrvec.push(five).unwrap();

    let (from_vec, from_arr) = (vec.remove(2), arrvec.remove(2).unwrap());

    assert_eq!(from_vec, from_arr);

    let remaining = arrvec.iter().into_iter().map(|t| *t).collect::<Vec<&str>>();

    assert_eq!(vec, remaining);
}

#[test]
fn remove_end_is_same_as_vec() {
    let one = "one";
    let two = "two";
    let three = "three";
    let four = "four";
    let five = "five";

    let mut vec = vec![one, two, three, four, five];

    let mut arrvec = StackList::<&str, 5>::new();

    arrvec.push(one).unwrap();
    arrvec.push(two).unwrap();
    arrvec.push(three).unwrap();
    arrvec.push(four).unwrap();
    arrvec.push(five).unwrap();

    let (from_vec, from_arr) = (vec.remove(4), arrvec.remove(4).unwrap());

    assert_eq!(from_vec, from_arr);

    let remaining = arrvec.iter().into_iter().map(|t| *t).collect::<Vec<&str>>();

    assert_eq!(vec, remaining);
}

#[test]
fn get_0th_empty() {
    let no_stack = StackList::<&str, 0>::new();
    let some_stack = StackList::<&str, 5>::new();

    assert_eq!(no_stack.get(0), None);
    assert_eq!(some_stack.get(0), None);
}

#[test]
fn get_1th_empty() {
    let no_stack = StackList::<&str, 0>::new();
    let some_stack = StackList::<&str, 5>::new();

    assert_eq!(no_stack.get(1), None);
    assert_eq!(some_stack.get(1), None);
}

#[test]
fn eq_is_eq() {
    const ARRAY: [usize; 5] = [5; 5];
    assert_eq!(
        StackList::<usize, 5>::from_array(ARRAY),
        StackList::<usize, 5>::from_array(ARRAY)
    )
}

#[test]
fn clear_is_clear() {
    let mut svec = StackList::from_array(["one", "two", "three", "four", "five"].clone());

    svec.clear();

    assert_eq!(svec.iter().into_iter().nth(0), None);
}

#[test]
fn stack_list_eq_tells_apart() {
    let mut left = StackList::<u8, 3>::new();
    let mut right = StackList::<u8, 3>::new();
    assert!(left == right);
    left.push(1).unwrap();
    assert!(left != right);
    right.push(2).unwrap();
    assert!(left != right);
    right.remove(0);
    right.push(1).unwrap();
    assert!(left == right);
}

#[test]
fn stack_list_push_when_full_is_refused() {
    let mut list = StackList::<u8, 2>::new();
    assert_eq!(list.push(1), Ok(()));
    assert_eq!(list.push(2), Ok(()));
    assert_eq!(list.push(3), Err(PushError::WouldExceedCapacity));
    assert_eq!(list.len(), 2);
    assert_eq!(list.iter(), vec![&1, &2]);
    let mut none = StackList::<u8, 0>::new();
    assert_eq!(none.push(1), Err(PushError::WouldExceedCapacity));
}

#[test]
fn stack_list_pop_takes_the_last() {
    let mut list = StackList::from_array(["one", "two", "three", "four", "five"]);
    assert_eq!(list.pop(), Some("five"));
    assert_eq!(list.pop(), Some("four"));
    assert_eq!(list.len(), 3);
    assert_eq!(list.iter(), vec![&"one", &"two", &"three"]);
    list.clear();
    assert_eq!(list.pop(), None);
    assert_eq!(list.len(), 0);
}

#[test]
fn stack_list_remove_out_of_range_changes_nothing() {
    let mut list = StackList::from_array(["one", "two", "three", "four", "five"]);
    list.pop();
    assert_eq!(list.remove(4), None);
    assert_eq!(list.remove(5), None);
    assert_eq!(list.remove(usize::MAX), None);
    assert_eq!(list.len(), 4);
    assert_eq!(list.iter(), vec![&"one", &"two", &"three", &"four"]);
}

#[test]
fn stack_list_get_mut_writes_one_element() {
    let mut list = StackList::from_array(["one", "two", "three", "four", "five"]);
    match list.get_mut(1) {
        Some(slot) => *slot = "TWO",
        None => panic!(),
    }
    assert!(list.get_mut(5).is_none());
    assert_eq!(list.get(1), Some(&"TWO"));
    assert_eq!(list.get(0), Some(&"one"));
    assert_eq!(list.get(5), None);
    assert_eq!(list.len(), 5);
}

#[test]
fn stack_list_from_array_is_full() {
    let mut list = StackList::from_array([1u8, 2, 3]);
    assert_eq!(list.len(), 3);
    assert_eq!(list.iter(), vec![&1, &2, &3]);
    assert_eq!(list.push(4), Err(PushError::WouldExceedCapacity));
}
