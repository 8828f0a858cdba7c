//! Collecting what a module is built with: submodules, component
//! parameters, and overriding components and providers.
use crate::build_context::ModuleBuildContext;
use crate::error::Error;
use crate::module::{
    share, Component, ComponentFn, ComponentParameters, HasComponent, HasProvider, Module,
    ProviderFn,
};
use crate::type_key::{type_id_of, TypeKey};
use crate::type_map::{type_map_keys, type_map_value, TypeMap};
use std::any::TypeId;
use std::sync::Arc;
use vstd::prelude::*;

verus! {

/// Builds a [`Module`]. Component parameters can be set, and both
/// components and providers implementations can be overridden.
pub struct ModuleBuilder<M: Module> {
    parameters: TypeMap,
    submodules: M::Submodules,
    component_overrides: TypeMap,
    component_fn_overrides: TypeMap,
    provider_overrides: TypeMap,
}

impl<M: Module> ModuleBuilder<M> {
    /// The component parameters set, by type.
    pub closed spec fn parameter_map(&self) -> TypeMap {
        self.parameters
    }

    /// The overriding component instances, by type.
    pub closed spec fn component_override_map(&self) -> TypeMap {
        self.component_overrides
    }

    /// The overriding component functions, by type.
    pub closed spec fn component_fn_map(&self) -> TypeMap {
        self.component_fn_overrides
    }

    /// The overriding providers, by type.
    pub closed spec fn provider_override_map(&self) -> TypeMap {
        self.provider_overrides
    }

    /// The types of the component parameters set.
    pub open spec fn parameter_keys(&self) -> Set<TypeId> {
        type_map_keys(self.parameter_map())
    }

    /// The types of the overriding component instances.
    pub open spec fn component_override_keys(&self) -> Set<TypeId> {
        type_map_keys(self.component_override_map())
    }

    /// The types of the overriding component functions.
    pub open spec fn component_fn_keys(&self) -> Set<TypeId> {
        type_map_keys(self.component_fn_map())
    }

    /// The types of the overriding providers.
    pub open spec fn provider_override_keys(&self) -> Set<TypeId> {
        type_map_keys(self.provider_override_map())
    }

    /// The submodules.
    pub closed spec fn submodules_value(&self) -> M::Submodules {
        self.submodules
    }

    /// Whether `b` holds what `a` holds, but for the parameters.
    pub open spec fn same_but_parameters(a: Self, b: Self) -> bool {
        &&& b.component_override_keys() == a.component_override_keys()
        &&& b.component_fn_keys() == a.component_fn_keys()
        &&& b.provider_override_keys() == a.provider_override_keys()
        &&& b.submodules_value() == a.submodules_value()
    }

    /// Creates a builder from the module's submodules; nothing is set or
    /// overridden yet.
    pub fn with_submodules(submodules: M::Submodules) -> (r: Self)
        ensures
            r.parameter_keys() == Set::<TypeId>::empty(),
            r.component_override_keys() == Set::<TypeId>::empty(),
            r.component_fn_keys() == Set::<TypeId>::empty(),
            r.provider_override_keys() == Set::<TypeId>::empty(),
            r.submodules_value() == submodules,
    {
        ModuleBuilder {
            parameters: TypeMap::new(),
            submodules,
            component_overrides: TypeMap::new(),
            component_fn_overrides: TypeMap::new(),
            provider_overrides: TypeMap::new(),
        }
    }

    /// Sets the parameters of the component `C`, replacing any set before.
    /// If the parameters are not set, the defaults are used.
    pub fn with_component_parameters<C: Component<M>>(self, params: C::Parameters) -> (r: Self) where
        M: HasComponent<C::Interface>,
        ensures
            r.parameter_keys() == self.parameter_keys().insert(
                type_id_of::<ComponentParameters<C, C::Parameters>>(),
            ),
            Self::same_but_parameters(self, r),
            type_map_value::<ComponentParameters<C, C::Parameters>>(r.parameter_map()) matches Some(
                p,
            ) && p.value == params,
    {
        let key = TypeKey::<ComponentParameters<C, C::Parameters>>::of();
        let mut builder = self;
        builder.parameters.insert(&key, ComponentParameters::new(params));
        builder
    }

    /// Overrides the component implementing `I` with an instance.
    pub fn with_component_override<I: ?Sized + 'static>(self, component: Box<I>) -> (r: Self) where
        M: HasComponent<I>,
        ensures
            r.component_override_keys() == self.component_override_keys().insert(type_id_of::<Arc<I>>()),
            r.parameter_keys() == self.parameter_keys(),
            r.component_fn_keys() == self.component_fn_keys(),
            r.provider_override_keys() == self.provider_override_keys(),
            r.submodules_value() == self.submodules_value(),
            type_map_value::<Arc<I>>(r.component_override_map()) matches Some(a) && &*a == &*component,
    {
        let key = TypeKey::<Arc<I>>::of();
        let mut builder = self;
        builder.component_overrides.insert(&key, share(component));
        builder
    }

    /// Overrides the component implementing `I` with a function that builds
    /// it while the module is built.
    pub fn with_component_override_fn<I: ?Sized + 'static>(self, component_fn: ComponentFn<M, I>) -> (r: Self) where
        M: HasComponent<I>,
        ensures
            r.component_fn_keys() == self.component_fn_keys().insert(type_id_of::<ComponentFn<M, I>>()),
            r.parameter_keys() == self.parameter_keys(),
            r.component_override_keys() == self.component_override_keys(),
            r.provider_override_keys() == self.provider_override_keys(),
            r.submodules_value() == self.submodules_value(),
            type_map_value::<ComponentFn<M, I>>(r.component_fn_map()) == Some(component_fn),
    {
        let key = TypeKey::<ComponentFn<M, I>>::of();
        let mut builder = self;
        builder.component_fn_overrides.insert(&key, component_fn);
        builder
    }

    /// Overrides the provider implementing `I`.
    pub fn with_provider_override<I: ?Sized + 'static>(self, provider_fn: ProviderFn<M, I>) -> (r: Self) where
        M: HasProvider<I>,
        ensures
            r.provider_override_keys() == self.provider_override_keys().insert(
                type_id_of::<Arc<ProviderFn<M, I>>>(),
            ),
            r.parameter_keys() == self.parameter_keys(),
            r.component_override_keys() == self.component_override_keys(),
            r.component_fn_keys() == self.component_fn_keys(),
            r.submodules_value() == self.submodules_value(),
            type_map_value::<Arc<ProviderFn<M, I>>>(r.provider_override_map()) matches Some(a) && *a
                == provider_fn,
    {
        let key = TypeKey::<Arc<ProviderFn<M, I>>>::of();
        let mut builder = self;
        builder.provider_overrides.insert(&key, Arc::new(provider_fn));
        builder
    }

    /// The build context that [`build`](Self::build) hands to the module:
    /// overriding instances count as resolved, and nothing is being
    /// resolved yet.
    pub fn into_context(self) -> (r: ModuleBuildContext<M>)
        ensures
            r.resolved_map() == self.component_override_map(),
            r.component_fn_map() == self.component_fn_map(),
            r.provider_override_map() == self.provider_override_map(),
            r.parameter_map() == self.parameter_map(),
            r.resolved_keys() == self.component_override_keys(),
            r.component_fn_keys() == self.component_fn_keys(),
            r.provider_override_keys() == self.provider_override_keys(),
            r.parameter_keys() == self.parameter_keys(),
            r.submodules_value() == self.submodules_value(),
            r.chain() == Seq::<(TypeId, TypeId)>::empty(),
    {
        ModuleBuildContext::new(
            self.parameters,
            self.component_overrides,
            self.component_fn_overrides,
            self.provider_overrides,
            self.submodules,
        )
    }

    /// Builds the module.
    pub fn build(self) -> (r: Result<M, Error>)
        ensures
            exists|context: &mut ModuleBuildContext<M>|
                {
                    &&& context.resolved_map() == self.component_override_map()
                    &&& context.component_fn_map() == self.component_fn_map()
                    &&& context.provider_override_map() == self.provider_override_map()
                    &&& context.parameter_map() == self.parameter_map()
                    &&& context.resolved_keys() == self.component_override_keys()
                    &&& context.component_fn_keys() == self.component_fn_keys()
                    &&& context.provider_override_keys() == self.provider_override_keys()
                    &&& context.parameter_keys() == self.parameter_keys()
                    &&& context.submodules_value() == self.submodules_value()
                    &&& context.chain() == Seq::<(TypeId, TypeId)>::empty()
                    &&& #[trigger] call_ensures(M::build, (context,), r)
                },
    {
        let mut context = self.into_context();
        M::build(&mut context)
    }
}

} // verus!
