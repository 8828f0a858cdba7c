//! Service dependencies and provider registrations.
use crate::type_key::{type_id_of, TypeKey};
use std::any::TypeId;
use vstd::prelude::*;

verus! {

/// Whether a dependency is on a component or on a provider.
#[derive(Debug, PartialEq, Eq, Structural)]
pub enum DependencyType {
    Component,
    Provider,
}

/// Represents a service dependency. `Dependency` is used to determine the
/// build order of components (build only after dependencies are built).
#[derive(Debug)]
pub struct Dependency {
    pub type_id: TypeId,
    pub dependency_type: DependencyType,
}

impl Dependency {
    /// A dependency of the given kind on the service whose interface type is
    /// the one `key` names.
    pub fn on<I: ?Sized>(key: &TypeKey<I>, dependency_type: DependencyType) -> (r: Dependency)
        ensures
            r.type_id == key@,
            r.dependency_type == dependency_type,
    {
        Dependency { type_id: key.type_id(), dependency_type }
    }

    /// A `Dependency` on the component `I`.
    pub fn component<I: ?Sized + 'static>() -> (r: Dependency)
        ensures
            r.type_id == type_id_of::<I>(),
            r.dependency_type == DependencyType::Component,
    {
        Dependency::on(&TypeKey::<I>::of(), DependencyType::Component)
    }

    /// A `Dependency` on the provider for `P`.
    pub fn provider<P: ?Sized + 'static>() -> (r: Dependency)
        ensures
            r.type_id == type_id_of::<P>(),
            r.dependency_type == DependencyType::Provider,
    {
        Dependency::on(&TypeKey::<P>::of(), DependencyType::Provider)
    }
}

/// Stores metadata associated with a provider. Currently only used to
/// verify provider dependencies exist.
pub struct ProviderRegistration {
    pub name: String,
    pub interface_id: TypeId,
    pub dependencies: Vec<Dependency>,
}

impl ProviderRegistration {
    /// A registration with the given name, interface and dependencies.
    pub fn new(name: String, interface_id: TypeId, dependencies: Vec<Dependency>) -> (r: Self)
        ensures
            r.name == name,
            r.interface_id == interface_id,
            r.dependencies == dependencies,
    {
        ProviderRegistration { name, interface_id, dependencies }
    }
}

} // verus!
