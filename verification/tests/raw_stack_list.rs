use linear_collections::stack_list::RawStackList;
use std::ops::{Deref, DerefMut};
use std::sync::{Arc, Mutex};

/// Records in a shared flag that it was dropped.
struct Dropper {
    reference: Arc<Mutex<bool>>,
}

impl Dropper {
    pub fn new(reference: Arc<Mutex<bool>>) -> Self {
        Self { reference }
    }
}

impl Drop for Dropper {
    fn drop(&mut self) {
        *self.reference.lock().unwrap().deref_mut() = true;
    }
}

#[test]
fn dropper_checks_drop() {
    let was_dropped = Arc::new(Mutex::new(false));

    assert_eq!(*was_dropped.lock().unwrap().deref(), false);

    let dropper = Dropper::new(was_dropped.clone());

    drop(dropper);

    assert_eq!(*was_dropped.lock().unwrap().deref(), true);
}

#[test]
fn raw_stack_list_remove_front_is_same_as_vec() {
    let one = "one";
    let two = "two";
    let three = "three";
    let four = "four";
    let five = "five";

    let mut vec = vec![one, two, three, four, five];

    let mut arrvec = RawStackList::<&str, 5>::uninit();

    arrvec.insert_at(0, one);
    arrvec.insert_at(1, two);
    arrvec.insert_at(2, three);
    arrvec.insert_at(3, four);
    arrvec.insert_at(4, five);

    let (from_vec, from_arr) = (vec.remove(0), arrvec.remove(0, 5));

    assert_eq!(from_vec, from_arr);

    let remaining = arrvec.iter_to(4).into_iter().map(|t| *t).collect::<Vec<&str>>();

    assert_eq!(vec, remaining);
}

#[test]
fn raw_stack_list_remove_mid_is_same_as_vec() {
    let one = "one";
    let two = "two";
    let three = "three";
    let four = "four";
    let five = "five";

    let mut vec = vec![one, two, three, four, five];

    let mut arrvec = RawStackList::<&str, 5>::uninit();

    arrvec.insert_at(0, one);
    arrvec.insert_at(1, two);
    arrvec.insert_at(2, three);
    arrvec.insert_at(3, four);
    arrvec.insert_at(4, five);

    let (from_vec, from_arr) = (vec.remove(2), arrvec.remove(2, 5));

    assert_eq!(from_vec, from_arr);

    let remaining = arrvec.iter_to(4).into_iter().map(|t| *t).collect::<Vec<&str>>();

    assert_eq!(vec, remaining);
}

#[test]
fn raw_stack_list_remove_end_is_same_as_vec() {
    let one = "one";
    let two = "two";
    let three = "three";
    let four = "four";
    let five = "five";

    let mut vec = vec![one, two, three, four, five];

    let mut arrvec = RawStackList::<&str, 5>::uninit();

    arrvec.insert_at(0, one);
    arrvec.insert_at(1, two);
    arrvec.insert_at(2, three);
    arrvec.insert_at(3, four);
    arrvec.insert_at(4, five);

    let (from_vec, from_arr) = (vec.remove(4), arrvec.remove(4, 5));

    assert_eq!(from_vec, from_arr);

    let remaining = arrvec.iter_to(4).into_iter().map(|t| *t).collect::<Vec<&str>>();

    assert_eq!(vec, remaining);
}

#[test]
fn remove_front_is_same_as_vec() {
    let one = "one";
    let two = "two";
    let three = "three";
    let four = "four";
    let five = "five";

    let mut vec = vec![one, two, three, four, five];

    let mut arrvec = RawStackList::<&str, 5>::uninit();

    arrvec.insert_at(0, one);
    arrvec.insert_at(1, two);
    arrvec.insert_at(2, three);
    arrvec.insert_at(3, four);
    arrvec.insert_at(4, five);

    let (from_vec, from_arr) = (vec.remove(0), arrvec.remove(0, 5));

    assert_eq!(from_vec, from_arr);

    let remaining = arrvec.iter_to(4).into_iter().map(|t| *t).collect::<Vec<&str>>();

    assert_eq!(vec, remaining);
}

#[test]
fn raw_stack_list_clear_to_drops() {
    let first_was_dropped = Arc::new(Mutex::new(false));
    let second_was_dropped = Arc::new(Mutex::new(false));
    let third_was_dropped = Arc::new(Mutex::new(false));
    let fourth_was_dropped = Arc::new(Mutex::new(false));
    let fifth_was_dropped = Arc::new(Mutex::new(false));

    let mut svec = RawStackList::from_array([
        Dropper::new(first_was_dropped.clone()),
        Dropper::new(second_was_dropped.clone()),
        Dropper::new(third_was_dropped.clone()),
        Dropper::new(fourth_was_dropped.clone()),
        Dropper::new(fifth_was_dropped.clone()),
    ]);

    assert_eq!(*first_was_dropped.lock().unwrap().deref(), false);
    assert_eq!(*second_was_dropped.lock().unwrap().deref(), false);
    assert_eq!(*third_was_dropped.lock().unwrap().deref(), false);
    assert_eq!(*fourth_was_dropped.lock().unwrap().deref(), false);
    assert_eq!(*fifth_was_dropped.lock().unwrap().deref(), false);

    svec.clear_to(5);

    assert_eq!(*first_was_dropped.lock().unwrap().deref(), true);
    assert_eq!(*second_was_dropped.lock().unwrap().deref(), true);
    assert_eq!(*third_was_dropped.lock().unwrap().deref(), true);
    assert_eq!(*fourth_was_dropped.lock().unwrap().deref(), true);
    assert_eq!(*fifth_was_dropped.lock().unwrap().deref(), true);
}

#[test]
fn raw_stack_list_clear_to_leaves_the_rest() {
    let mut arrvec = RawStackList::from_array(["one", "two", "three", "four", "five"]);
    arrvec.clear_to(2);
    assert_eq!(arrvec.slot(0), None);
    assert_eq!(arrvec.slot(1), None);
    assert_eq!(arrvec.slot(2), Some(&"three"));
    assert_eq!(arrvec.slot(4), Some(&"five"));
}

#[test]
fn raw_stack_list_uninit_is_vacant() {
    let arrvec = RawStackList::<u8, 3>::uninit();
    assert_eq!(arrvec.slot(0), None);
    assert_eq!(arrvec.slot(1), None);
    assert_eq!(arrvec.slot(2), None);
    assert!(arrvec.is_within_capacity(2));
    assert!(!arrvec.is_within_capacity(3));
}

#[test]
fn raw_stack_list_from_array_is_occupied_in_order() {
    let arrvec = RawStackList::from_array([7u8, 8, 9]);
    assert_eq!(*arrvec.get(0), 7);
    assert_eq!(*arrvec.get(1), 8);
    assert_eq!(*arrvec.get(2), 9);
}

#[test]
fn raw_stack_list_from_maybe_uninit_keeps_slots() {
    let arrvec = RawStackList::from_maybe_uninit([Some(1u8), None, Some(3)]);
    assert_eq!(arrvec.slot(0), Some(&1));
    assert_eq!(arrvec.slot(1), None);
    assert_eq!(arrvec.slot(2), Some(&3));
}

#[test]
fn raw_stack_list_remove_leaves_last_slot_vacant() {
    let mut arrvec = RawStackList::from_array(["one", "two", "three", "four", "five"]);
    assert_eq!(arrvec.remove(1, 4), "two");
    assert_eq!(arrvec.slot(0), Some(&"one"));
    assert_eq!(arrvec.slot(1), Some(&"three"));
    assert_eq!(arrvec.slot(2), Some(&"four"));
    assert_eq!(arrvec.slot(3), None);
    assert_eq!(arrvec.slot(4), Some(&"five"));
}

#[test]
fn raw_stack_list_get_mut_writes_one_slot() {
    let mut arrvec = RawStackList::from_array(["one", "two", "three", "four", "five"]);
    *arrvec.get_mut(3) = "FOUR";
    assert_eq!(arrvec.iter_to(5), vec![&"one", &"two", &"three", &"FOUR", &"five"]);
}
