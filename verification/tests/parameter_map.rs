use shaku::parameter::ParameterMap;

/// Values inserted by name can be retrieved by name
#[test]
fn by_name_get_value() {
    let mut map = ParameterMap::new();
    map.insert_with_name("key 1", "value 1".to_string());

    assert_eq!(
        map.remove_with_name::<String>("key 1"),
        Some("value 1".to_string())
    );
}

/// Values inserted by name will not be returned as the wrong type
#[test]
fn by_name_get_same_type() {
    let mut map = ParameterMap::new();
    map.insert_with_name("key 1", "value 1".to_string());

    assert_eq!(map.remove_with_name::<usize>("key 1"), None);
}

/// Values inserted by name will be overwritten by the same name, regardless
/// of type
#[test]
fn by_name_overwrite() {
    let mut map = ParameterMap::new();
    map.insert_with_name("key 1", 123.323 as f32);
    map.insert_with_name("key 1", true);

    assert_eq!(map.remove_with_name::<bool>("key 1"), Some(true));
}

/// Values inserted by name will be overwritten by the same name, regardless
/// of type. Accessing via the old type will return None.
#[test]
fn by_name_overwrite_old_type() {
    let mut map = ParameterMap::new();
    map.insert_with_name("key 1", 123.323 as f32);
    map.insert_with_name("key 1", true);

    assert_eq!(map.remove_with_name::<f32>("key 1"), None);
}

/// Values inserted by type can be retrieved by type
#[test]
fn by_type_get_value() {
    let mut map = ParameterMap::new();
    map.insert_with_type("value 1".to_string());

    assert_eq!(
        map.remove_with_type::<String>(),
        Some("value 1".to_string())
    );
}

/// Cannot retrieve a type that has not been inserted
#[test]
fn by_type_missing() {
    let mut map = ParameterMap::new();

    assert_eq!(map.remove_with_type::<usize>(), None)
}

/// Values inserted by type will be overwritten by the same type
#[test]
fn by_type_overwrite() {
    let mut map = ParameterMap::new();
    map.insert_with_type(false);
    map.insert_with_type(true);

    assert_eq!(map.remove_with_type::<bool>(), Some(true));
}

#[test]
fn insert_hands_back_the_replaced_value_of_the_same_type() {
    let mut map = ParameterMap::new();
    assert_eq!(map.insert_with_name("k", 1u32), None);
    assert_eq!(map.insert_with_name("k", 2u32), Some(1u32));
    assert_eq!(map.insert_with_name("k", "text".to_string()), None);
    assert_eq!(map.insert_with_type(5u8), None);
    assert_eq!(map.insert_with_type(6u8), Some(5u8));
}

#[test]
fn removal_with_the_wrong_type_keeps_the_parameter() {
    let mut map = ParameterMap::new();
    map.insert_with_name("key", 7u64);
    assert_eq!(map.remove_with_name::<u32>("key"), None);
    assert_eq!(map.remove_with_name::<u64>("key"), Some(7u64));
    assert_eq!(map.remove_with_name::<u64>("key"), None);
}

#[test]
fn names_and_types_do_not_collide() {
    let mut map = ParameterMap::new();
    map.insert_with_name("usize", 1usize);
    map.insert_with_type(2usize);
    assert_eq!(map.remove_with_type::<usize>(), Some(2usize));
    assert_eq!(map.remove_with_type::<usize>(), None);
    assert_eq!(map.remove_with_name::<usize>("usize"), Some(1usize));
}

#[test]
fn round_trip_leaves_other_parameters() {
    let mut map = ParameterMap::new();
    map.insert_with_name("a", 1i32);
    map.insert_with_name("b", 2i32);
    map.insert_with_name("c", 3i32);
    assert_eq!(map.remove_with_name::<i32>("b"), Some(2));
    assert_eq!(map.remove_with_name::<i32>("a"), Some(1));
    assert_eq!(map.remove_with_name::<i32>("c"), Some(3));
}
