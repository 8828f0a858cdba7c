use shaku::map_container::{ComponentBuildFn, Container, RegisteredType};
use shaku::{Error, TypeKey, TypeMap};
use std::any::TypeId;
use std::sync::Arc;

trait FooValue {
    fn get_value(&self) -> usize;
    fn set_value(&mut self, _: usize);
}

struct FooImpl {
    value: usize,
}

impl FooValue for FooImpl {
    fn get_value(&self) -> usize {
        self.value
    }
    fn set_value(&mut self, val: usize) {
        self.value = val;
    }
}

trait Unregistered {}

fn container() -> Container {
    let registration = RegisteredType::<dyn FooValue>::new(
        "FooImpl".to_string(),
        TypeId::of::<dyn FooValue>(),
        ComponentBuildFn::new(|_, params| {
            let value = params.remove_with_name::<usize>("value").unwrap_or(0);
            Ok(Box::new(FooImpl { value }) as Box<dyn FooValue>)
        }),
        Vec::new(),
    );
    let mut init = TypeMap::new();
    init.insert(&TypeKey::<RegisteredType<dyn FooValue>>::of(), registration);
    Container::new(init)
}

#[test]
fn registered_component_resolves_with_its_parameters() {
    let mut container = container();
    container.with_named_parameter::<dyn FooValue, usize>("value", 17 as usize);
    {
        let foo: &dyn FooValue = container.resolve_ref::<dyn FooValue>().unwrap();
        assert_eq!(foo.get_value(), 17);
    }
    {
        let foo: &mut dyn FooValue = container.resolve_mut::<dyn FooValue>().unwrap();
        assert_eq!(foo.get_value(), 17);
        foo.set_value(99);
    }
    {
        let foo: Arc<dyn FooValue> = container.resolve::<dyn FooValue>().unwrap();
        assert_eq!(foo.get_value(), 99);
        let again: Arc<dyn FooValue> = container.resolve::<dyn FooValue>().unwrap();
        assert!(Arc::ptr_eq(&foo, &again));
        assert!(container.resolve_ref::<dyn FooValue>().is_ok());
        match container.resolve_mut::<dyn FooValue>() {
            Err(Error::ResolveError(msg)) => assert_eq!(
                msg,
                format!(
                    "Unable to get a mutable reference of component {:?}, there are existing Arc references",
                    TypeId::of::<dyn FooValue>()
                )
            ),
            _ => panic!("a shared component was handed out mutably"),
        }
    }
}

#[test]
fn unregistered_component_is_an_error() {
    let mut container = container();
    match container.resolve::<dyn Unregistered>() {
        Err(Error::ResolveError(msg)) => assert_eq!(
            msg,
            format!(
                "no component {:?} registered in this container",
                TypeId::of::<dyn Unregistered>()
            )
        ),
        _ => panic!("an unregistered component resolved"),
    }
    assert!(container.resolve_ref::<dyn Unregistered>().is_err());
    assert!(container.resolve_mut::<dyn Unregistered>().is_err());
}

#[test]
fn typed_parameters_reach_the_builder() {
    let registration = RegisteredType::<dyn FooValue>::new(
        "FooImpl".to_string(),
        TypeId::of::<dyn FooValue>(),
        ComponentBuildFn::new(|_, params| {
            let value = params.remove_with_type::<usize>().unwrap_or(0);
            Ok(Box::new(FooImpl { value }) as Box<dyn FooValue>)
        }),
        Vec::new(),
    );
    let mut init = TypeMap::new();
    init.insert(&TypeKey::<RegisteredType<dyn FooValue>>::of(), registration);
    let mut container = Container::new(init);
    container
        .with_typed_parameter::<dyn FooValue, usize>(3)
        .with_typed_parameter::<dyn FooValue, usize>(4);
    assert_eq!(container.resolve_ref::<dyn FooValue>().unwrap().get_value(), 4);
    // Parameters for a resolved component change nothing.
    container.with_typed_parameter::<dyn FooValue, usize>(5);
    assert_eq!(container.resolve_ref::<dyn FooValue>().unwrap().get_value(), 4);
}

#[test]
fn parameter_for_an_unregistered_interface_changes_nothing() {
    let mut container = container();
    let key = TypeKey::<RegisteredType<dyn Unregistered>>::of();
    container.with_named_parameter_with::<dyn Unregistered, usize>(&key, "value", 3);
    container.with_typed_parameter_with::<dyn Unregistered, usize>(&key, 4);
    let foo: Arc<dyn FooValue> = container.resolve::<dyn FooValue>().unwrap();
    assert_eq!(foo.get_value(), 0);
}

#[test]
fn parameter_set_with_its_key_reaches_the_builder() {
    let mut container = container();
    let key = TypeKey::<RegisteredType<dyn FooValue>>::of();
    container.with_named_parameter_with::<dyn FooValue, usize>(&key, "value", 23);
    let foo: Arc<dyn FooValue> = container.resolve::<dyn FooValue>().unwrap();
    assert_eq!(foo.get_value(), 23);
}

#[test]
fn build_error_is_handed_on_and_nothing_is_stored() {
    let registration = RegisteredType::<dyn FooValue>::new(
        "Broken".to_string(),
        TypeId::of::<dyn FooValue>(),
        ComponentBuildFn::new(|_, _| Err::<Box<dyn FooValue>, Error>(Error::Registration("broken".to_string()))),
        Vec::new(),
    );
    let mut init = TypeMap::new();
    init.insert(&TypeKey::<RegisteredType<dyn FooValue>>::of(), registration);
    let mut container = Container::new(init);
    match container.resolve::<dyn FooValue>() {
        Err(e) => assert_eq!(e, Error::Registration("broken".to_string())),
        Ok(_) => panic!("the build did not fail"),
    }
    match container.resolve_ref::<dyn FooValue>() {
        Err(Error::ResolveError(msg)) => assert!(msg.starts_with("no component ")),
        Err(other) => panic!("unexpected error {:?}", other),
        Ok(_) => panic!("a failed build was stored"),
    }
}
