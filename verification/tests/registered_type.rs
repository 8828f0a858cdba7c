use shaku::map_container::{ComponentBuildFn, RegisteredType};
use shaku::Error;
use std::any::TypeId;

trait Foo {
    fn foo(&self);
}

struct FooImpl;
impl Foo for FooImpl {
    fn foo(&self) {}
}

#[test]
fn test_overwrite() {
    let mut registered_type = RegisteredType::<dyn Foo>::new(
        "FooImpl".to_string(),
        TypeId::of::<dyn Foo>(),
        ComponentBuildFn::new(|_, _| Err(Error::Registration("not built in this test".to_string()))),
        Vec::new(),
    );

    registered_type.with_named_parameter("test", "value 1".to_string());
    registered_type.with_named_parameter("test", "value 2".to_string());

    let value = registered_type
        .parameters
        .remove_with_name::<String>("test");
    assert_eq!(value.unwrap(), "value 2".to_string());

    registered_type.with_typed_parameter(17 as usize);
    registered_type.with_typed_parameter(18 as usize);

    let value = registered_type.parameters.remove_with_type::<usize>();
    assert_eq!(value.unwrap(), 18);
    FooImpl.foo();
}
