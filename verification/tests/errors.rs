use shaku::dependency::{Dependency, DependencyType, ProviderRegistration};
use shaku::Error;
use std::any::TypeId;

#[test]
fn error_text_names_the_kind() {
    let e = Error::Registration("bad".to_string());
    assert_eq!(e.to_string(), "Registration Error: bad");
    assert_eq!(e.description(), "bad");
    let e = Error::ResolveError("missing".to_string());
    assert_eq!(e.to_string(), "Resolve Error: missing");
    assert_eq!(e.description(), "missing");
}

trait Service {}

#[test]
fn dependencies_record_kind_and_type() {
    let c = Dependency::component::<dyn Service>();
    assert_eq!(c.dependency_type, DependencyType::Component);
    assert_eq!(c.type_id, TypeId::of::<dyn Service>());
    let p = Dependency::provider::<dyn Service>();
    assert_eq!(p.dependency_type, DependencyType::Provider);
    assert_eq!(p.type_id, TypeId::of::<dyn Service>());
}

#[test]
fn provider_registration_keeps_its_fields() {
    let r = ProviderRegistration::new(
        "ServiceImpl".to_string(),
        TypeId::of::<dyn Service>(),
        vec![Dependency::component::<u8>()],
    );
    assert_eq!(r.name, "ServiceImpl");
    assert_eq!(r.interface_id, TypeId::of::<dyn Service>());
    assert_eq!(r.dependencies.len(), 1);
    assert_eq!(r.dependencies[0].type_id, TypeId::of::<u8>());
}
