//! Resolving services from a built module, with provider overrides, and
//! looking into submodules.
use crate::build_context::ModuleBuildContext;
use crate::error::{error_message, Error};
use crate::module::{
    share, Component, ComponentParameters, HasComponent, HasProvider, HasSubmodule, Module,
    ProviderFn,
};
use crate::type_key::{type_id_of, TypeKey};
use crate::type_map::{type_map_keys, type_map_value, TypeMap};
use std::any::TypeId;
use std::sync::Arc;
use vstd::prelude::*;

verus! {

/// The two kinds of container and what they hold.
#[allow(inconsistent_fields)]
pub enum ContainerData<'m, M: Module> {
    /// The root container. It owns the module and the provider overrides.
    Root { module: M, provider_overrides: TypeMap },
    /// A container for a submodule of the root module. It refers to the
    /// submodule instance owned by the root module and to the root's
    /// provider overrides. It cannot mutate its components.
    Submodule { module: &'m M, provider_overrides: &'m TypeMap },
}

impl<'m, M: Module> ContainerData<'m, M> {
    /// The module.
    pub open spec fn module_value(&self) -> M {
        match self {
            ContainerData::Root { module, .. } => *module,
            ContainerData::Submodule { module, .. } => **module,
        }
    }

    /// The provider overrides.
    pub open spec fn overrides_value(&self) -> TypeMap {
        match self {
            ContainerData::Root { provider_overrides, .. } => *provider_overrides,
            ContainerData::Submodule { provider_overrides, .. } => **provider_overrides,
        }
    }

    /// A reference to the module.
    pub fn module_ref(&self) -> (r: &M)
        ensures
            *r == self.module_value(),
    {
        match self {
            ContainerData::Root { module, .. } => module,
            ContainerData::Submodule { module, .. } => module,
        }
    }

    /// A mutable reference to the module; only a root container has one.
    pub fn module_mut(&mut self) -> (r: Option<&mut M>)
        ensures
            r is Some <==> *old(self) is Root,
            r matches Some(m) ==> *m == old(self).module_value(),
            r is None ==> *final(self) == *old(self),
    {
        match self {
            ContainerData::Root { module, .. } => Some(module),
            ContainerData::Submodule { .. } => None,
        }
    }

    /// A reference to the provider overrides.
    pub fn provider_overrides(&self) -> (r: &TypeMap)
        ensures
            *r == self.overrides_value(),
    {
        match self {
            ContainerData::Root { provider_overrides, .. } => provider_overrides,
            ContainerData::Submodule { provider_overrides, .. } => provider_overrides,
        }
    }
}

/// A root container holding what building its module gave, with provider
/// overrides of the types `overrides`; or the error that building gave.
pub open spec fn built_container<M: Module>(
    built: Result<M, Error>,
    r: Result<Container<'static, M>, Error>,
    overrides: Set<TypeId>,
) -> bool {
    match built {
        Ok(module) => r matches Ok(c) && !c.is_submodule() && c.inner.module_value() == module
            && c.provider_override_keys() == overrides,
        Err(e) => r == Err::<Container<'static, M>, Error>(e),
    }
}

/// What a container hands out for what a provider gave: the service, or,
/// when the provider failed, a `ResolveError` carrying the provider's
/// message.
pub open spec fn provided<I: ?Sized>(given: Result<Box<I>, Error>, r: Result<Box<I>, Error>) -> bool {
    match given {
        Ok(_) => r == given,
        Err(e) => r matches Err(Error::ResolveError(msg)) && msg@ == error_message(e),
    }
}

/// Hands on what a provider gave; a failure becomes a `ResolveError` with
/// the provider's message.
pub fn provider_result<I: ?Sized>(given: Result<Box<I>, Error>) -> (r: Result<Box<I>, Error>)
    ensures
        provided(given, r),
{
    match given {
        Ok(service) => Ok(service),
        Err(Error::Registration(msg)) => Err(Error::ResolveError(msg)),
        Err(Error::ResolveError(msg)) => Err(Error::ResolveError(msg)),
    }
}

/// Resolves services associated with a [`Module`]. A `Container` is built
/// by a [`ContainerBuilder`].
pub struct Container<'m, M: Module> {
    pub inner: ContainerData<'m, M>,
}

impl<'m, M: Module> Container<'m, M> {
    /// Whether this container is for a submodule.
    pub open spec fn is_submodule(&self) -> bool {
        self.inner is Submodule
    }

    /// The types of the provider overrides.
    pub open spec fn provider_override_keys(&self) -> Set<TypeId> {
        type_map_keys(self.inner.overrides_value())
    }

    /// The component registered with the interface `I`. Its ownership is
    /// shared.
    pub fn resolve<I: ?Sized + 'static>(&self) -> (r: Arc<I>) where
        M: HasComponent<I>,
        ensures
            call_ensures(<M as HasComponent<I>>::resolve, (&self.inner.module_value(),), r),
    {
        self.inner.module_ref().resolve()
    }

    /// Creates a service using the provider registered with the interface
    /// `I`, or the provider overriding it, where `key` names the type under
    /// which an override is stored. Each call creates a new instance. If the
    /// provider fails, the error is a `ResolveError` with its message.
    pub fn provide_with<I: ?Sized + 'static>(&self, key: &TypeKey<ProviderFn<M, I>>) -> (r: Result<
        Box<I>,
        Error,
    >) where M: HasProvider<I>,
        ensures
            !self.provider_override_keys().contains(key@) ==> exists|given: Result<Box<I>, Error>|
                {
                    &&& #[trigger] call_ensures(
                        <M as HasProvider<I>>::provide,
                        (&self.inner.module_value(),),
                        given,
                    )
                    &&& provided(given, r)
                },
            self.provider_override_keys().contains(key@) ==> exists|
                provider_fn: ProviderFn<M, I>,
                given: Result<Box<I>, Error>,
            |
                {
                    &&& type_map_value::<ProviderFn<M, I>>(self.inner.overrides_value()) == Some(provider_fn)
                    &&& #[trigger] provider_fn.may_give(self.inner.module_value(), given)
                    &&& provided(given, r)
                },
    {
        let given = match self.inner.provider_overrides().get(key) {
            Some(provider_fn) => provider_fn.call(self.inner.module_ref()),
            None => self.inner.module_ref().provide(),
        };
        provider_result(given)
    }

    /// Creates a service using the provider registered with the interface
    /// `I`, or the provider overriding it. Each call creates a new instance.
    /// If the provider fails, the error is a `ResolveError` with its
    /// message.
    pub fn provide<I: ?Sized + 'static>(&self) -> (r: Result<Box<I>, Error>) where
        M: HasProvider<I>,
        ensures
            !self.provider_override_keys().contains(type_id_of::<ProviderFn<M, I>>()) ==> exists|
                given: Result<Box<I>, Error>,
            |
                {
                    &&& #[trigger] call_ensures(
                        <M as HasProvider<I>>::provide,
                        (&self.inner.module_value(),),
                        given,
                    )
                    &&& provided(given, r)
                },
            self.provider_override_keys().contains(type_id_of::<ProviderFn<M, I>>()) ==> exists|
                provider_fn: ProviderFn<M, I>,
                given: Result<Box<I>, Error>,
            |
                {
                    &&& type_map_value::<ProviderFn<M, I>>(self.inner.overrides_value()) == Some(provider_fn)
                    &&& #[trigger] provider_fn.may_give(self.inner.module_value(), given)
                    &&& provided(given, r)
                },
            r matches Err(e) ==> e is ResolveError,
    {
        let key = TypeKey::<ProviderFn<M, I>>::of();
        self.provide_with(&key)
    }

    /// A reference to the component registered with the interface `I`.
    pub fn resolve_ref<I: ?Sized + 'static>(&self) -> (r: &I) where
        M: HasComponent<I>,
        ensures
            call_ensures(<M as HasComponent<I>>::resolve_ref, (&self.inner.module_value(),), r),
    {
        self.inner.module_ref().resolve_ref()
    }

    /// A mutable reference to the component registered with the interface
    /// `I`. `None` if this is a submodule container, or if the component is
    /// jointly owned (an `Arc<I>` to it exists outside the container).
    pub fn resolve_mut<I: ?Sized + 'static>(&mut self) -> (r: Option<&mut I>) where
        M: HasComponent<I>,
        ensures
            old(self).is_submodule() ==> r is None,
            !old(self).is_submodule() ==> exists|m: &mut M|
                {
                    &&& *m == old(self).inner.module_value()
                    &&& #[trigger] call_ensures(<M as HasComponent<I>>::resolve_mut, (m,), r)
                },
    {
        match self.inner.module_mut() {
            Some(module) => module.resolve_mut(),
            None => None,
        }
    }

    /// A container for the submodule `N`. It refers to this container and
    /// resolves the services that the submodule exposes, with this
    /// container's provider overrides.
    pub fn sub_container<N: Module>(&self) -> (r: Container<'_, N>) where
        M: HasSubmodule<N>,
        ensures
            r.is_submodule(),
            call_ensures(
                <M as HasSubmodule<N>>::get_submodule,
                (&self.inner.module_value(),),
                &r.inner.module_value(),
            ),
            r.inner.overrides_value() == self.inner.overrides_value(),
    {
        Container {
            inner: ContainerData::Submodule {
                module: self.inner.module_ref().get_submodule(),
                provider_overrides: self.inner.provider_overrides(),
            },
        }
    }
}

impl<M: Module<Submodules = ()>> Container<'static, M> {
    /// Builds a container with no parameters set and nothing overridden;
    /// the same as `ContainerBuilder::new().build()`.
    pub fn default() -> (r: Result<Container<'static, M>, Error>)
        ensures
            exists|context: &mut ModuleBuildContext<M>, built: Result<M, Error>|
                {
                    &&& context.resolved_keys() == Set::<TypeId>::empty()
                    &&& context.component_fn_keys() == Set::<TypeId>::empty()
                    &&& context.provider_override_keys() == Set::<TypeId>::empty()
                    &&& context.parameter_keys() == Set::<TypeId>::empty()
                    &&& context.chain() == Seq::<(TypeId, TypeId)>::empty()
                    &&& #[trigger] call_ensures(M::build, (context,), built)
                    &&& built_container(built, r, Set::<TypeId>::empty())
                },
    {
        let mut builder = ContainerBuilder::<M>::new();
        builder.build()
    }
}

/// Builds a [`Container`]. Component parameters can be set, and both
/// components and providers implementations can be overridden.
pub struct ContainerBuilder<M: Module> {
    parameters: TypeMap,
    component_overrides: TypeMap,
    provider_overrides: TypeMap,
    module: std::marker::PhantomData<M>,
}

impl<M: Module> ContainerBuilder<M> {
    /// The component parameters set, by type.
    pub closed spec fn parameter_map(&self) -> TypeMap {
        self.parameters
    }

    /// The overriding component instances, by type.
    pub closed spec fn component_override_map(&self) -> TypeMap {
        self.component_overrides
    }

    /// The overriding providers, by type.
    pub closed spec fn provider_override_map(&self) -> TypeMap {
        self.provider_overrides
    }

    /// The types of the component parameters set.
    pub open spec fn parameter_keys(&self) -> Set<TypeId> {
        type_map_keys(self.parameter_map())
    }

    /// The types of the overriding component instances.
    pub open spec fn component_override_keys(&self) -> Set<TypeId> {
        type_map_keys(self.component_override_map())
    }

    /// The types of the overriding providers.
    pub open spec fn provider_override_keys(&self) -> Set<TypeId> {
        type_map_keys(self.provider_override_map())
    }
}

impl<M: Module<Submodules = ()>> Default for ContainerBuilder<M> {
    /// A builder with nothing set or overridden.
    fn default() -> (r: Self)
        ensures
            r.parameter_keys() == Set::<TypeId>::empty(),
            r.component_override_keys() == Set::<TypeId>::empty(),
            r.provider_override_keys() == Set::<TypeId>::empty(),
    {
        ContainerBuilder {
            parameters: TypeMap::new(),
            component_overrides: TypeMap::new(),
            provider_overrides: TypeMap::new(),
            module: std::marker::PhantomData,
        }
    }
}

impl<M: Module<Submodules = ()>> ContainerBuilder<M> {
    /// A builder with nothing set or overridden; the same as `default`.
    pub fn new() -> (r: Self)
        ensures
            r.parameter_keys() == Set::<TypeId>::empty(),
            r.component_override_keys() == Set::<TypeId>::empty(),
            r.provider_override_keys() == Set::<TypeId>::empty(),
    {
        Self::default()
    }

    /// Sets the parameters of the component `C`, replacing any set before.
    /// If the parameters are not set, the defaults are used.
    pub fn with_component_parameters<C: Component<M>>(&mut self, params: C::Parameters) -> (r:
        &mut Self) where M: HasComponent<C::Interface>,
        ensures
            r.parameter_keys() == old(self).parameter_keys().insert(
                type_id_of::<ComponentParameters<C, C::Parameters>>(),
            ),
            r.component_override_keys() == old(self).component_override_keys(),
            r.provider_override_keys() == old(self).provider_override_keys(),
            *final(self) == *final(r),
            type_map_value::<ComponentParameters<C, C::Parameters>>(r.parameter_map()) matches Some(
                p,
            ) && p.value == params,
    {
        let key = TypeKey::<ComponentParameters<C, C::Parameters>>::of();
        self.parameters.insert(&key, ComponentParameters::new(params));
        self
    }

    /// Overrides the component implementing `I` with an instance.
    pub fn with_component_override<I: ?Sized + 'static>(&mut self, component: Box<I>) -> (r:
        &mut Self) where M: HasComponent<I>,
        ensures
            r.component_override_keys() == old(self).component_override_keys().insert(
                type_id_of::<Arc<I>>(),
            ),
            r.parameter_keys() == old(self).parameter_keys(),
            r.provider_override_keys() == old(self).provider_override_keys(),
            *final(self) == *final(r),
            type_map_value::<Arc<I>>(r.component_override_map()) matches Some(a) && &*a == &*component,
    {
        let key = TypeKey::<Arc<I>>::of();
        self.component_overrides.insert(&key, share(component));
        self
    }

    /// Overrides the provider implementing `I`.
    pub fn with_provider_override<I: ?Sized + 'static>(&mut self, provider_fn: ProviderFn<M, I>) -> (r:
        &mut Self) where M: HasProvider<I>,
        ensures
            r.provider_override_keys() == old(self).provider_override_keys().insert(
                type_id_of::<ProviderFn<M, I>>(),
            ),
            r.parameter_keys() == old(self).parameter_keys(),
            r.component_override_keys() == old(self).component_override_keys(),
            *final(self) == *final(r),
            type_map_value::<ProviderFn<M, I>>(r.provider_override_map()) == Some(provider_fn),
    {
        let key = TypeKey::<ProviderFn<M, I>>::of();
        self.provider_overrides.insert(&key, provider_fn);
        self
    }

    /// Builds the container. What was set and overridden is handed to the
    /// container, and the builder is left empty.
    pub fn build(&mut self) -> (r: Result<Container<'static, M>, Error>)
        ensures
            final(self).parameter_keys() == Set::<TypeId>::empty(),
            final(self).component_override_keys() == Set::<TypeId>::empty(),
            final(self).provider_override_keys() == Set::<TypeId>::empty(),
            exists|context: &mut ModuleBuildContext<M>, built: Result<M, Error>|
                {
                    &&& context.resolved_map() == old(self).component_override_map()
                    &&& context.resolved_keys() == old(self).component_override_keys()
                    &&& context.parameter_keys() == old(self).parameter_keys()
                    &&& context.component_fn_keys() == Set::<TypeId>::empty()
                    &&& context.provider_override_keys() == Set::<TypeId>::empty()
                    &&& context.parameter_map() == old(self).parameter_map()
                    &&& context.chain() == Seq::<(TypeId, TypeId)>::empty()
                    &&& #[trigger] call_ensures(M::build, (context,), built)
                    &&& built_container(built, r, old(self).provider_override_keys())
                },
            r matches Ok(c) ==> c.inner.overrides_value() == old(self).provider_override_map(),
    {
        let mut parameters = TypeMap::new();
        std::mem::swap(&mut parameters, &mut self.parameters);
        let mut component_overrides = TypeMap::new();
        std::mem::swap(&mut component_overrides, &mut self.component_overrides);
        let mut provider_overrides = TypeMap::new();
        std::mem::swap(&mut provider_overrides, &mut self.provider_overrides);
        let mut context = ModuleBuildContext::<M>::new(
            parameters,
            component_overrides,
            TypeMap::new(),
            TypeMap::new(),
            (),
        );
        match M::build(&mut context) {
            Ok(module) => Ok(Container { inner: ContainerData::Root { module, provider_overrides } }),
            Err(e) => Err(e),
        }
    }
}

} // verus!
