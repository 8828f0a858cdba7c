//! Building a module: resolving each component once, with overrides and
//! parameters, and detecting circular dependencies.
use crate::error::Error;
use crate::module::{
    share, share_again, Component, ComponentFn, ComponentParameters, Module, Provider, ProviderFn,
};
use crate::resolve_chain::{circular_message, ResolveChain, ResolveStep};
use crate::type_key::{type_id_of, TypeKey};
use crate::type_map::{type_map_keys, type_map_value, TypeMap};
use std::any::TypeId;
use std::sync::Arc;
use vstd::prelude::*;

verus! {

/// How a request for a component is met.
pub enum Resolution {
    /// An instance is already resolved (or was given as an override): it is
    /// handed out again.
    Reuse,
    /// The component is already being resolved further out: the
    /// dependencies are circular.
    Circular,
    /// A function given as an override builds the component.
    OverrideFn,
    /// The component's own implementation builds it.
    Implementation,
}

/// Decides how a component is resolved, from the identities of the types
/// under which its instance and its override function are stored, the step
/// that resolving it adds to the chain, and the state of the context.
pub open spec fn resolution(
    resolved: Set<TypeId>,
    component_fns: Set<TypeId>,
    chain: Seq<(TypeId, TypeId)>,
    instance: TypeId,
    function: TypeId,
    step: (TypeId, TypeId),
) -> Resolution {
    if resolved.contains(instance) {
        Resolution::Reuse
    } else if chain.contains(step) {
        Resolution::Circular
    } else if component_fns.contains(function) {
        Resolution::OverrideFn
    } else {
        Resolution::Implementation
    }
}

/// Builds a [`Module`] and its associated components. Build context, such
/// as parameters and resolved components, are stored in this struct.
///
/// This is also the context in which containers are built
/// ([`ContainerBuildContext`]).
pub struct ModuleBuildContext<M: Module> {
    resolved_components: TypeMap,
    component_fn_overrides: TypeMap,
    provider_overrides: TypeMap,
    parameters: TypeMap,
    submodules: M::Submodules,
    resolve_chain: ResolveChain,
}

/// The context in which a container's module is built.
pub type ContainerBuildContext<M> = ModuleBuildContext<M>;

/// What resolving a component does, given the identities of the types under
/// which its instance and override function are stored and its step.
pub open spec fn build_outcome<M: Module, I: ?Sized>(
    before: ModuleBuildContext<M>,
    after: ModuleBuildContext<M>,
    r: Result<Arc<I>, Error>,
    instance: TypeId,
    function: TypeId,
    step: (TypeId, TypeId),
) -> bool {
    match resolution(
        before.resolved_keys(),
        before.component_fn_keys(),
        before.chain(),
        instance,
        function,
        step,
    ) {
        Resolution::Reuse => r is Ok && after == before,
        Resolution::Circular => after == before && (r matches Err(Error::ResolveError(msg))
            && msg@ == circular_message(step, before.chain())),
        _ => after.chain() == before.chain() && (r is Ok ==> after.resolved_keys().contains(
            instance,
        )),
    }
}

/// The context handed to a component's build: `context` is `before` with
/// `step` added to the chain, and with the same resolved instances, provider
/// overrides and submodules.
pub open spec fn entered<M: Module>(
    before: ModuleBuildContext<M>,
    context: ModuleBuildContext<M>,
    step: (TypeId, TypeId),
) -> bool {
    &&& context.resolved_map() == before.resolved_map()
    &&& context.provider_override_map() == before.provider_override_map()
    &&& context.submodules_value() == before.submodules_value()
    &&& context.chain() == before.chain().push(step)
}

/// What is done with the result of a build, where `built_in` is the context
/// as the build left it: the chain becomes `chain` again; an error is handed
/// on; a success is stored as the resolved instance of the type `instance`
/// and handed out. Nothing else changes.
pub open spec fn stored<M: Module, I: ?Sized>(
    built_in: ModuleBuildContext<M>,
    built: Result<Box<I>, Error>,
    after: ModuleBuildContext<M>,
    r: Result<Arc<I>, Error>,
    instance: TypeId,
    chain: Seq<(TypeId, TypeId)>,
) -> bool {
    &&& after.chain() == chain
    &&& after.component_fn_map() == built_in.component_fn_map()
    &&& after.provider_override_map() == built_in.provider_override_map()
    &&& after.parameter_map() == built_in.parameter_map()
    &&& after.submodules_value() == built_in.submodules_value()
    &&& match built {
        Ok(b) => (r matches Ok(a) && &*a == &*b && type_map_value::<Arc<I>>(after.resolved_map())
            == Some(a)) && after.resolved_keys() == built_in.resolved_keys().insert(instance),
        Err(e) => r == Err::<Arc<I>, Error>(e) && after.resolved_map() == built_in.resolved_map(),
    }
}

impl<M: Module> ModuleBuildContext<M> {
    /// The resolved component instances, by type.
    pub closed spec fn resolved_map(&self) -> TypeMap {
        self.resolved_components
    }

    /// The component override functions not used yet, by type.
    pub closed spec fn component_fn_map(&self) -> TypeMap {
        self.component_fn_overrides
    }

    /// The provider overrides, by type.
    pub closed spec fn provider_override_map(&self) -> TypeMap {
        self.provider_overrides
    }

    /// The component parameters not used yet, by type.
    pub closed spec fn parameter_map(&self) -> TypeMap {
        self.parameters
    }

    /// The types of the resolved component instances.
    pub open spec fn resolved_keys(&self) -> Set<TypeId> {
        type_map_keys(self.resolved_map())
    }

    /// The types of the component override functions not used yet.
    pub open spec fn component_fn_keys(&self) -> Set<TypeId> {
        type_map_keys(self.component_fn_map())
    }

    /// The types of the provider overrides.
    pub open spec fn provider_override_keys(&self) -> Set<TypeId> {
        type_map_keys(self.provider_override_map())
    }

    /// The types of the component parameters not used yet.
    pub open spec fn parameter_keys(&self) -> Set<TypeId> {
        type_map_keys(self.parameter_map())
    }

    /// The steps being resolved, outermost first.
    pub closed spec fn chain(&self) -> Seq<(TypeId, TypeId)> {
        self.resolve_chain@
    }

    /// The submodules.
    pub closed spec fn submodules_value(&self) -> M::Submodules {
        self.submodules
    }

    /// Creates the build context. Overridden component instances count as
    /// resolved from the start.
    pub fn new(
        parameters: TypeMap,
        component_overrides: TypeMap,
        component_fn_overrides: TypeMap,
        provider_overrides: TypeMap,
        submodules: M::Submodules,
    ) -> (r: ModuleBuildContext<M>)
        ensures
            r.resolved_map() == component_overrides,
            r.component_fn_map() == component_fn_overrides,
            r.provider_override_map() == provider_overrides,
            r.parameter_map() == parameters,
            r.resolved_keys() == type_map_keys(component_overrides),
            r.component_fn_keys() == type_map_keys(component_fn_overrides),
            r.provider_override_keys() == type_map_keys(provider_overrides),
            r.parameter_keys() == type_map_keys(parameters),
            r.submodules_value() == submodules,
            r.chain() == Seq::<(TypeId, TypeId)>::empty(),
    {
        ModuleBuildContext {
            resolved_components: component_overrides,
            component_fn_overrides,
            provider_overrides,
            parameters,
            submodules,
            resolve_chain: ResolveChain::new(),
        }
    }

    /// Access this module's submodules.
    pub fn submodules(&self) -> (r: &M::Submodules)
        ensures
            *r == self.submodules_value(),
    {
        &self.submodules
    }

    /// Resolves the component `C`, where the keys name the types under
    /// which its instance, its override function and its parameters are
    /// stored, and `step` is the step its resolution adds to the chain. `C`
    /// is resolved already, or it is not being resolved further out.
    ///
    /// A resolved instance is handed out again. Otherwise the component is
    /// built by its override function if one was given (which is used up),
    /// else by its implementation with the parameters set for it (which are
    /// used up) or their defaults, while `step` is on the chain. A built
    /// instance is stored as resolved; a build error is handed on.
    pub fn build_component_with<C: Component<M>>(
        &mut self,
        instance_key: &TypeKey<Arc<C::Interface>>,
        fn_key: &TypeKey<ComponentFn<M, C::Interface>>,
        params_key: &TypeKey<ComponentParameters<C, C::Parameters>>,
        step: ResolveStep,
    ) -> (r: Result<Arc<C::Interface>, Error>)
        requires
            old(self).resolved_keys().contains(instance_key@) || !old(self).chain().contains(step@),
        ensures
            build_outcome(*old(self), *final(self), r, instance_key@, fn_key@, step@),
            old(self).resolved_keys().contains(instance_key@) ==> (r matches Ok(a)
                && type_map_value::<Arc<C::Interface>>(old(self).resolved_map()) == Some(a)),
            resolution(
                old(self).resolved_keys(),
                old(self).component_fn_keys(),
                old(self).chain(),
                instance_key@,
                fn_key@,
                step@,
            ) == Resolution::OverrideFn ==> exists|
                f: ComponentFn<M, C::Interface>,
                context: &mut ModuleBuildContext<M>,
                built: Result<Box<C::Interface>, Error>,
            |
                {
                    &&& entered(*old(self), *context, step@)
                    &&& context.component_fn_keys() == old(self).component_fn_keys().remove(fn_key@)
                    &&& context.parameter_map() == old(self).parameter_map()
                    &&& type_map_value::<ComponentFn<M, C::Interface>>(old(self).component_fn_map()) == Some(f)
                    &&& #[trigger] f.may_give(*context, built)
                    &&& stored(*final(context), built, *final(self), r, instance_key@, old(self).chain())
                },
            resolution(
                old(self).resolved_keys(),
                old(self).component_fn_keys(),
                old(self).chain(),
                instance_key@,
                fn_key@,
                step@,
            ) == Resolution::Implementation ==> exists|
                context: &mut ModuleBuildContext<M>,
                params: C::Parameters,
                built: Result<Box<C::Interface>, Error>,
            |
                {
                    &&& entered(*old(self), *context, step@)
                    &&& context.component_fn_map() == old(self).component_fn_map()
                    &&& context.parameter_keys() == old(self).parameter_keys().remove(params_key@)
                    &&& (!old(self).parameter_keys().contains(params_key@) ==> call_ensures(
                        C::Parameters::default,
                        (),
                        params,
                    ))
                    &&& (type_map_value::<ComponentParameters<C, C::Parameters>>(
                        old(self).parameter_map(),
                    ) matches Some(p) ==> params == p.value)
                    &&& #[trigger] call_ensures(C::build, (context, params), built)
                    &&& stored(*final(context), built, *final(self), r, instance_key@, old(self).chain())
                },
    {
        if self.resolved_components.contains(instance_key) {
            match self.resolved_components.get(instance_key) {
                Some(instance) => {
                    return Ok(share_again(instance));
                },
                None => {
                    proof {
                        assert(false);
                    }
                },
            }
        }
        let saved_chain = self.resolve_chain.snapshot();
        self.resolve_chain.enter(step);
        let built = match self.component_fn_overrides.remove(fn_key) {
            Some(component_fn) => component_fn.call(self),
            None => {
                let params = match self.parameters.remove(params_key) {
                    Some(p) => p.value,
                    None => C::Parameters::default(),
                };
                C::build(self, params)
            },
        };
        self.resolve_chain = saved_chain;
        self.store_built(instance_key, built)
    }

    /// Hands on the result of building the component whose instance is
    /// stored under the type that `instance_key` names: an error is returned
    /// as it is and nothing changes; a built instance is stored as resolved
    /// and handed out.
    pub fn store_built<I: ?Sized + 'static>(
        &mut self,
        instance_key: &TypeKey<Arc<I>>,
        built: Result<Box<I>, Error>,
    ) -> (r: Result<Arc<I>, Error>)
        ensures
            built is Err ==> r == Err::<Arc<I>, Error>(built->Err_0) && *final(self) == *old(self),
            built is Ok ==> {
                &&& (r matches Ok(a) && &*a == &*built->Ok_0 && type_map_value::<Arc<I>>(
                    final(self).resolved_map(),
                ) == Some(a))
                &&& final(self).resolved_keys() == old(self).resolved_keys().insert(instance_key@)
                &&& final(self).component_fn_map() == old(self).component_fn_map()
                &&& final(self).provider_override_map() == old(self).provider_override_map()
                &&& final(self).parameter_map() == old(self).parameter_map()
                &&& final(self).submodules_value() == old(self).submodules_value()
                &&& final(self).chain() == old(self).chain()
            },
    {
        match built {
            Ok(component) => {
                let component = share(component);
                self.resolved_components.insert(instance_key, share_again(&component));
                Ok(component)
            },
            Err(e) => Err(e),
        }
    }

    /// Resolves the component `C`: hands out its instance if one is already
    /// resolved (or was given as an override), else builds it, by its
    /// override function if one was given, else by its implementation with
    /// the parameters set for it or their defaults, and stores it. Fails if
    /// `C` is already being resolved further out (a circular dependency),
    /// naming its interface and the chain, or if building fails, with the
    /// build's error. The chain of components being resolved is the same
    /// afterwards.
    pub fn build_component<C: Component<M>>(&mut self) -> (r: Result<Arc<C::Interface>, Error>)
        ensures
            final(self).chain() == old(self).chain(),
            ({
                let instance = type_id_of::<Arc<C::Interface>>();
                let function = type_id_of::<ComponentFn<M, C::Interface>>();
                let parameters = type_id_of::<ComponentParameters<C, C::Parameters>>();
                let step = (type_id_of::<C>(), type_id_of::<C::Interface>());
                build_outcome(*old(self), *final(self), r, instance, function, step) && (old(
                    self,
                ).resolved_keys().contains(instance) ==> (r matches Ok(a) && type_map_value::<
                    Arc<C::Interface>,
                >(old(self).resolved_map()) == Some(a))) && (resolution(
                    old(self).resolved_keys(),
                    old(self).component_fn_keys(),
                    old(self).chain(),
                    instance,
                    function,
                    step,
                ) == Resolution::OverrideFn ==> exists|
                    f: ComponentFn<M, C::Interface>,
                    context: &mut ModuleBuildContext<M>,
                    built: Result<Box<C::Interface>, Error>,
                |
                    {
                        &&& entered(*old(self), *context, step)
                        &&& context.component_fn_keys() == old(self).component_fn_keys().remove(function)
                        &&& context.parameter_map() == old(self).parameter_map()
                        &&& type_map_value::<ComponentFn<M, C::Interface>>(old(self).component_fn_map()) == Some(f)
                        &&& #[trigger] f.may_give(*context, built)
                        &&& stored(*final(context), built, *final(self), r, instance, old(self).chain())
                    }) && (resolution(
                    old(self).resolved_keys(),
                    old(self).component_fn_keys(),
                    old(self).chain(),
                    instance,
                    function,
                    step,
                ) == Resolution::Implementation ==> exists|
                    context: &mut ModuleBuildContext<M>,
                    params: C::Parameters,
                    built: Result<Box<C::Interface>, Error>,
                |
                    {
                        &&& entered(*old(self), *context, step)
                        &&& context.component_fn_map() == old(self).component_fn_map()
                        &&& context.parameter_keys() == old(self).parameter_keys().remove(parameters)
                        &&& (!old(self).parameter_keys().contains(parameters) ==> call_ensures(
                            C::Parameters::default,
                            (),
                            params,
                        ))
                        &&& (type_map_value::<ComponentParameters<C, C::Parameters>>(
                            old(self).parameter_map(),
                        ) matches Some(p) ==> params == p.value)
                        &&& #[trigger] call_ensures(C::build, (context, params), built)
                        &&& stored(*final(context), built, *final(self), r, instance, old(self).chain())
                    })
            }),
    {
        let instance_key = TypeKey::<Arc<C::Interface>>::of();
        let fn_key = TypeKey::<ComponentFn<M, C::Interface>>::of();
        let params_key = TypeKey::<ComponentParameters<C, C::Parameters>>::of();
        let step = ResolveStep {
            component_type_id: TypeKey::<C>::of().type_id(),
            interface_type_id: TypeKey::<C::Interface>::of().type_id(),
        };
        if !self.resolved_components.contains(&instance_key) && self.resolve_chain.contains(&step) {
            let r = Err(self.resolve_chain.circular_error(&step));
            return r;
        }
        let r = self.build_component_with::<C>(&instance_key, &fn_key, &params_key, step);
        r
    }

    /// Resolves the component `C`; the same as
    /// [`build_component`](Self::build_component).
    pub fn resolve<C: Component<M>>(&mut self) -> (r: Result<Arc<C::Interface>, Error>)
        ensures
            final(self).chain() == old(self).chain(),
            ({
                let instance = type_id_of::<Arc<C::Interface>>();
                let function = type_id_of::<ComponentFn<M, C::Interface>>();
                let parameters = type_id_of::<ComponentParameters<C, C::Parameters>>();
                let step = (type_id_of::<C>(), type_id_of::<C::Interface>());
                build_outcome(*old(self), *final(self), r, instance, function, step) && (old(
                    self,
                ).resolved_keys().contains(instance) ==> (r matches Ok(a) && type_map_value::<
                    Arc<C::Interface>,
                >(old(self).resolved_map()) == Some(a))) && (resolution(
                    old(self).resolved_keys(),
                    old(self).component_fn_keys(),
                    old(self).chain(),
                    instance,
                    function,
                    step,
                ) == Resolution::OverrideFn ==> exists|
                    f: ComponentFn<M, C::Interface>,
                    context: &mut ModuleBuildContext<M>,
                    built: Result<Box<C::Interface>, Error>,
                |
                    {
                        &&& entered(*old(self), *context, step)
                        &&& context.component_fn_keys() == old(self).component_fn_keys().remove(function)
                        &&& context.parameter_map() == old(self).parameter_map()
                        &&& type_map_value::<ComponentFn<M, C::Interface>>(old(self).component_fn_map()) == Some(f)
                        &&& #[trigger] f.may_give(*context, built)
                        &&& stored(*final(context), built, *final(self), r, instance, old(self).chain())
                    }) && (resolution(
                    old(self).resolved_keys(),
                    old(self).component_fn_keys(),
                    old(self).chain(),
                    instance,
                    function,
                    step,
                ) == Resolution::Implementation ==> exists|
                    context: &mut ModuleBuildContext<M>,
                    params: C::Parameters,
                    built: Result<Box<C::Interface>, Error>,
                |
                    {
                        &&& entered(*old(self), *context, step)
                        &&& context.component_fn_map() == old(self).component_fn_map()
                        &&& context.parameter_keys() == old(self).parameter_keys().remove(parameters)
                        &&& (!old(self).parameter_keys().contains(parameters) ==> call_ensures(
                            C::Parameters::default,
                            (),
                            params,
                        ))
                        &&& (type_map_value::<ComponentParameters<C, C::Parameters>>(
                            old(self).parameter_map(),
                        ) matches Some(p) ==> params == p.value)
                        &&& #[trigger] call_ensures(C::build, (context, params), built)
                        &&& stored(*final(context), built, *final(self), r, instance, old(self).chain())
                    })
            }),
    {
        self.build_component::<C>()
    }

    /// The provider function of `P`, or the one that overrides it if an
    /// override is stored under the type that `key` names. Without an
    /// override, calling the function gives what `P::provide` gives.
    pub fn provider_fn_with<P: Provider<M>>(
        &self,
        key: &TypeKey<Arc<ProviderFn<M, P::Interface>>>,
    ) -> (r: Arc<ProviderFn<M, P::Interface>>)
        ensures
            !self.provider_override_keys().contains(key@) ==> forall|
                m: M,
                res: Result<Box<P::Interface>, Error>,
            | #[trigger] r.may_give(m, res) == call_ensures(P::provide, (&m,), res),
            type_map_value::<Arc<ProviderFn<M, P::Interface>>>(self.provider_override_map()) matches Some(
                f,
            ) ==> r == f,
    {
        match self.provider_overrides.get(key) {
            Some(provider_fn) => share_again(provider_fn),
            None => Arc::new(ProviderFn::new(P::provide)),
        }
    }

    /// The provider function of `P`, or the one that overrides it if an
    /// override was given for its interface. Without an override for that
    /// interface, calling the function gives what `P::provide` gives.
    pub fn provider_fn<P: Provider<M>>(&self) -> (r: Arc<ProviderFn<M, P::Interface>>)
        ensures
            !self.provider_override_keys().contains(
                type_id_of::<Arc<ProviderFn<M, P::Interface>>>(),
            ) ==> forall|
                m: M,
                res: Result<Box<P::Interface>, Error>,
            | #[trigger] r.may_give(m, res) == call_ensures(P::provide, (&m,), res),
            type_map_value::<Arc<ProviderFn<M, P::Interface>>>(self.provider_override_map()) matches Some(
                f,
            ) ==> r == f,
    {
        let key = TypeKey::<Arc<ProviderFn<M, P::Interface>>>::of();
        self.provider_fn_with::<P>(&key)
    }

    /// Performs `action` in the context of the submodule `N`, whose own
    /// submodules are `submodules`, and returns its result. The resolved
    /// components, overrides, parameters and resolution chain are handed to
    /// the submodule's context and taken back afterwards; this module's
    /// submodules are left as they are.
    pub fn as_submodule<N: Module, R, F: FnOnce(&mut ModuleBuildContext<N>) -> R>(
        &mut self,
        submodules: N::Submodules,
        action: F,
    ) -> (r: R)
        requires
            forall|c: &mut ModuleBuildContext<N>| action.requires((c,)),
        ensures
            final(self).submodules_value() == old(self).submodules_value(),
            exists|context: &mut ModuleBuildContext<N>|
                {
                    &&& context.resolved_map() == old(self).resolved_map()
                    &&& context.component_fn_map() == old(self).component_fn_map()
                    &&& context.provider_override_map() == old(self).provider_override_map()
                    &&& context.parameter_map() == old(self).parameter_map()
                    &&& context.chain() == old(self).chain()
                    &&& context.submodules_value() == submodules
                    &&& #[trigger] call_ensures(action, (context,), r)
                    &&& final(self).resolved_map() == final(context).resolved_map()
                    &&& final(self).component_fn_map() == final(context).component_fn_map()
                    &&& final(self).provider_override_map() == final(context).provider_override_map()
                    &&& final(self).parameter_map() == final(context).parameter_map()
                    &&& final(self).chain() == final(context).chain()
                },
    {
        let mut resolved_components = TypeMap::new();
        std::mem::swap(&mut resolved_components, &mut self.resolved_components);
        let mut component_fn_overrides = TypeMap::new();
        std::mem::swap(&mut component_fn_overrides, &mut self.component_fn_overrides);
        let mut provider_overrides = TypeMap::new();
        std::mem::swap(&mut provider_overrides, &mut self.provider_overrides);
        let mut parameters = TypeMap::new();
        std::mem::swap(&mut parameters, &mut self.parameters);
        let mut resolve_chain = ResolveChain::new();
        std::mem::swap(&mut resolve_chain, &mut self.resolve_chain);
        let mut context = ModuleBuildContext::<N> {
            resolved_components,
            component_fn_overrides,
            provider_overrides,
            parameters,
            submodules,
            resolve_chain,
        };
        let result = action(&mut context);
        self.resolved_components = context.resolved_components;
        self.component_fn_overrides = context.component_fn_overrides;
        self.provider_overrides = context.provider_overrides;
        self.parameters = context.parameters;
        self.resolve_chain = context.resolve_chain;
        result
    }
}

} // verus!
