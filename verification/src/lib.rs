//! Shaku is a dependency injection library. Services are grouped into
//! modules: components are built once per module and shared, providers
//! create a new instance of their service on every request. Components and
//! providers can be overridden while a module is built, components take
//! parameters, and circular dependencies between components are detected.
//!
//! The parameter store, the resolution of components (with its chain of
//! components being resolved) and the registry of components are verified;
//! the type-keyed storage rests on `anymap`.
pub mod build_context;
pub mod component_index;
pub mod container;
pub mod dependency;
pub mod error;
pub mod laws;
pub mod map_container;
pub mod module;
pub mod module_builder;
pub mod parameter;
pub mod resolve_chain;
pub mod type_key;
pub mod type_map;

pub use crate::build_context::{ContainerBuildContext, ModuleBuildContext};
pub use crate::component_index::ComponentIndex;
pub use crate::container::{Container, ContainerBuilder};
pub use crate::dependency::{Dependency, DependencyType, ProviderRegistration};
pub use crate::error::Error;
pub use crate::map_container::{Built, ComponentBuildFn, ComponentBuilderImpl, RegisteredType};
pub use crate::module::{
    Component, ComponentFn, ComponentParameters, HasComponent, HasProvider, HasSubmodule, Module,
    Provider, ProviderFn,
};
pub use crate::module_builder::ModuleBuilder;
pub use crate::parameter::{Parameter, ParameterMap};
pub use crate::resolve_chain::{ResolveChain, ResolveStep};
pub use crate::type_key::TypeKey;
pub use crate::type_map::TypeMap;
