use shaku::parameter::Parameter;
use shaku::ComponentIndex;
use std::any::TypeId;

#[test]
fn indexes_compare_by_kind_and_content() {
    let a = ComponentIndex::named("value");
    let b = ComponentIndex::String("value".to_string());
    let c = ComponentIndex::named("other");
    let t = ComponentIndex::Id(TypeId::of::<u8>());
    let u = ComponentIndex::Id(TypeId::of::<u16>());
    assert!(a.same_key(&b));
    assert!(!a.same_key(&c));
    assert!(!a.same_key(&t));
    assert!(t.same_key(&ComponentIndex::Id(TypeId::of::<u8>())));
    assert!(!t.same_key(&u));
}

#[test]
fn parameter_value_comes_back_only_as_its_type() {
    let p = Parameter::new("year", 2020usize);
    assert_eq!(p.get_value::<u32>(), None);
    let p = Parameter::new("year", 2020usize);
    assert_eq!(p.get_value::<usize>(), Some(2020usize));
}

#[test]
fn parameter_made_with_a_key_holds_its_value() {
    let key = shaku::TypeKey::<usize>::of();
    let p = Parameter::new_as("year", 2021usize, &key);
    assert_eq!(p.get_value_as::<usize>(&key), Some(2021usize));
}

#[test]
fn keys_for_one_type_hold_its_identity() {
    let a = shaku::TypeKey::<u8>::of();
    let b = shaku::TypeKey::<u8>::of();
    assert_eq!(a.type_id(), b.type_id());
    assert_eq!(a.type_id(), TypeId::of::<u8>());
    assert_ne!(a.type_id(), shaku::TypeKey::<u16>::of().type_id());
    let d = shaku::Dependency::component::<u8>();
    assert_eq!(d.type_id, TypeId::of::<u8>());
}
