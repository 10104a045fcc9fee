use linear_collections::literal::{validate_map_literal, LiteralElement, LiteralError};

fn pairs(keys: &[&str]) -> Vec<LiteralElement> {
    keys.iter().map(|key| LiteralElement { key: key.to_string(), arity: 2 }).collect()
}

#[test]
fn literal_without_elements_is_refused() {
    assert!(matches!(validate_map_literal(&Vec::new()), Err(LiteralError::Empty)));
}

#[test]
fn literal_with_distinct_keys_is_accepted() {
    assert!(validate_map_literal(&pairs(&["\"k\""])).is_ok());
    assert!(validate_map_literal(&pairs(&["0", "1", "2", "3"])).is_ok());
    assert!(validate_map_literal(&pairs(&["1", "1usize", "r\"t\"", "\"t\""])).is_ok());
}

#[test]
fn literal_names_the_first_element_that_is_no_pair() {
    let mut elements = pairs(&["a", "b", "c", "d"]);
    elements[1].arity = 3;
    elements[3].arity = 0;
    match validate_map_literal(&elements) {
        Err(LiteralError::WrongArity { element, count }) => {
            assert_eq!(element, 1);
            assert_eq!(count, 3);
        }
        _ => panic!(),
    }
    let mut elements = pairs(&["a", "a"]);
    elements[1].arity = 1;
    assert!(matches!(
        validate_map_literal(&elements),
        Err(LiteralError::WrongArity { element: 1, count: 1 })
    ));
}

#[test]
fn literal_names_each_repeated_key_in_order() {
    match validate_map_literal(&pairs(&["a", "a"])) {
        Err(LiteralError::DuplicateKeys(keys)) => assert_eq!(keys, vec!["a"]),
        _ => panic!(),
    }
    match validate_map_literal(&pairs(&["b", "a", "c", "a", "b", "a", "d"])) {
        Err(LiteralError::DuplicateKeys(keys)) => assert_eq!(keys, vec!["a", "b", "a"]),
        _ => panic!(),
    }
}
