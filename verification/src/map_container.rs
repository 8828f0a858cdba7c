//! A container of registered components, each built from its registration
//! the first time it is resolved and shared afterwards.
use crate::dependency::Dependency;
use crate::error::Error;
use crate::component_index::IndexKey;
use crate::module::{exclusive_mut, share, share_again, shared_ref};
use crate::parameter::ParameterMap;
use crate::type_key::{type_id_debug, type_id_of, type_id_text, TypeKey};
use crate::type_map::{type_map_keys, type_map_value, TypeMap};
use std::any::TypeId;
use std::sync::Arc;
use vstd::prelude::*;

verus! {

/// The function that builds a registered component from the container and
/// the component's parameters, boxed
/// (`Box<dyn Fn(&mut Container, &mut ParameterMap) -> Result<Box<I>, Error>>`).
///
/// The verifier cannot see a `dyn Fn`, so the box is held in a private field
/// of this type.
#[verifier::external_body]
#[verifier::reject_recursive_types(I)]
pub struct BoxedComponentBuildFn<I: ?Sized> {
    inner: Box<dyn Fn(&mut Container, &mut ParameterMap) -> Result<Box<I>, Error>>,
}

/// Boxes `f` with `Box::new`.
#[verifier::external_body]
fn box_component_build_fn<
    I: ?Sized + 'static,
    F: Fn(&mut Container, &mut ParameterMap) -> Result<Box<I>, Error> + 'static,
>(f: F) -> BoxedComponentBuildFn<I> {
    BoxedComponentBuildFn { inner: Box::new(f) }
}

/// The function that builds a registered component, boxed, together with
/// what it may give for each container and parameters.
#[verifier::reject_recursive_types(I)]
pub struct ComponentBuildFn<I: ?Sized> {
    boxed: BoxedComponentBuildFn<I>,
    gives: Ghost<spec_fn(Container, ParameterMap, Result<Box<I>, Error>) -> bool>,
}

impl<I: ?Sized + 'static> ComponentBuildFn<I> {
    /// Whether calling the function on a container and parameters that are
    /// `container` and `parameters` may give `r`.
    pub closed spec fn may_give(
        &self,
        container: Container,
        parameters: ParameterMap,
        r: Result<Box<I>, Error>,
    ) -> bool {
        (self.gives@)(container, parameters, r)
    }

    /// Boxes `f`; calling the result does what `f` does.
    pub fn new<F: Fn(&mut Container, &mut ParameterMap) -> Result<Box<I>, Error> + 'static>(f: F) -> (r:
        ComponentBuildFn<I>)
        requires
            forall|c: &mut Container, p: &mut ParameterMap| #[trigger] f.requires((c, p)),
        ensures
            forall|c0: Container, p0: ParameterMap, res: Result<Box<I>, Error>|
                #[trigger] r.may_give(c0, p0, res) == exists|c: &mut Container, p: &mut ParameterMap|
                    {
                        &&& *c == c0
                        &&& *p == p0
                        &&& #[trigger] call_ensures(f, (c, p), res)
                    },
    {
        let ghost gives = |c0: Container, p0: ParameterMap, res: Result<Box<I>, Error>|
            exists|c: &mut Container, p: &mut ParameterMap|
                {
                    &&& *c == c0
                    &&& *p == p0
                    &&& #[trigger] call_ensures(f, (c, p), res)
                };
        ComponentBuildFn { boxed: box_component_build_fn(f), gives: Ghost(gives) }
    }

    /// Calls the boxed function.
    ///
    /// Claimed: the result is one that the boxed function may give for the
    /// container and parameters as they are when it is called. A
    /// `ComponentBuildFn` is only made by [`ComponentBuildFn::new`], which
    /// records what the function it boxes may give, and that function may
    /// be called on any container and parameters.
    #[verifier::external_body]
    pub fn call(&self, container: &mut Container, parameters: &mut ParameterMap) -> (r: Result<
        Box<I>,
        Error,
    >)
        ensures
            self.may_give(*old(container), *old(parameters), r),
    {
        (self.boxed.inner)(container, parameters)
    }
}

/// Represents a component registration. It is exposed in order to provide
/// parameters for the component.
#[verifier::reject_recursive_types(I)]
pub struct RegisteredType<I: ?Sized> {
    pub component: String,
    pub interface_id: TypeId,
    pub builder: ComponentBuildFn<I>,
    pub dependencies: Vec<Dependency>,
    pub parameters: ParameterMap,
}

impl<I: ?Sized + 'static> RegisteredType<I> {
    /// A registration with no parameters yet.
    pub fn new(
        component: String,
        interface_id: TypeId,
        builder: ComponentBuildFn<I>,
        dependencies: Vec<Dependency>,
    ) -> (r: Self)
        ensures
            r.component == component,
            r.interface_id == interface_id,
            r.builder == builder,
            r.dependencies == dependencies,
            r.parameters@ == Map::<IndexKey, TypeId>::empty(),
    {
        RegisteredType { component, interface_id, builder, dependencies, parameters: ParameterMap::new() }
    }

    /// Adds a parameter by property name; `name` must match one of the
    /// component's properties. A parameter set before under that name is
    /// overwritten.
    pub fn with_named_parameter<V: 'static>(&mut self, name: &str, value: V) -> (r: &mut Self)
        ensures
            r.parameters@ == old(self).parameters@.insert(IndexKey::Name(name@), type_id_of::<V>()),
            r.parameters.value_at::<V>(IndexKey::Name(name@)) == Some(value),
            forall|k: IndexKey|
                k != IndexKey::Name(name@) ==> (#[trigger] r.parameters.parameters().contains_key(k)
                    == old(self).parameters.parameters().contains_key(k) && r.parameters.parameters()[k]
                    == old(self).parameters.parameters()[k]),
            r.component == old(self).component,
            r.interface_id == old(self).interface_id,
            r.builder == old(self).builder,
            r.dependencies == old(self).dependencies,
            *final(self) == *final(r),
    {
        let _replaced = self.parameters.insert_with_name(name, value);
        self
    }

    /// Adds a parameter by type; `V` must be a unique type among the
    /// component's properties. A parameter set before with that type is
    /// overwritten.
    pub fn with_typed_parameter<V: 'static>(&mut self, value: V) -> (r: &mut Self)
        ensures
            r.parameters@ == old(self).parameters@.insert(
                IndexKey::Type(type_id_of::<V>()),
                type_id_of::<V>(),
            ),
            r.parameters.value_at::<V>(IndexKey::Type(type_id_of::<V>())) == Some(value),
            forall|k: IndexKey|
                k != IndexKey::Type(type_id_of::<V>()) ==> (#[trigger] r.parameters.parameters().contains_key(k)
                    == old(self).parameters.parameters().contains_key(k) && r.parameters.parameters()[k]
                    == old(self).parameters.parameters()[k]),
            r.component == old(self).component,
            r.interface_id == old(self).interface_id,
            r.builder == old(self).builder,
            r.dependencies == old(self).dependencies,
            *final(self) == *final(r),
    {
        let _replaced = self.parameters.insert_with_type(value);
        self
    }

    /// Builds the component with its builder and parameters.
    pub fn build(self, container: &mut Container) -> (r: Result<Box<I>, Error>)
        ensures
            self.builder.may_give(*old(container), self.parameters, r),
    {
        let mut registration = self;
        registration.builder.call(container, &mut registration.parameters)
    }
}

/// Builds a component registered in a [`Container`]: creates the builder,
/// names the interface, and builds the component from the container and its
/// parameters.
pub trait ComponentBuilderImpl {
    /// A new builder.
    fn new() -> Self where Self: Sized;

    /// The identity of the interface the component implements.
    fn interface_type_id() -> TypeId where Self: Sized;

    /// Builds the component, resolving its dependencies from `container`
    /// and taking its parameters from `params`.
    fn build(&self, container: &mut Container, params: &mut ParameterMap) -> Result<TypeMap, Error>;
}

/// A component whose builder is `Builder`.
pub trait Built {
    type Builder: ComponentBuilderImpl;
}

/// The message of the error for an interface that has no registration.
pub open spec fn unregistered_message(interface: TypeId) -> Seq<char> {
    "no component "@ + type_id_debug(interface) + " registered in this container"@
}

/// The message of the error for a component that cannot be borrowed
/// mutably.
pub open spec fn shared_message(interface: TypeId) -> Seq<char> {
    "Unable to get a mutable reference of component "@ + type_id_debug(interface)
        + ", there are existing Arc references"@
}

/// Struct containing all the components registered during the build phase,
/// used to resolve components.
///
/// Resolving a component consumes its registration data; the built
/// component is kept and handed out again afterwards.
#[derive(Debug)]
pub struct Container {
    component_map: TypeMap,
    resolved_component_map: TypeMap,
}

/// What resolving a component does, given the identities of the types under
/// which its instance and its registration are stored and of its interface.
pub open spec fn registry_outcome<X>(
    before: Container,
    after: Container,
    r: Result<X, Error>,
    instance: TypeId,
    registration: TypeId,
    interface: TypeId,
) -> bool {
    if before.resolved_keys().contains(instance) {
        r is Ok && after == before
    } else if !before.registered_keys().contains(registration) {
        after == before && (r matches Err(Error::ResolveError(msg)) && msg@ == unregistered_message(
            interface,
        ))
    } else {
        r is Ok ==> after.resolved_keys().contains(instance)
    }
}

/// What taking a mutable reference to a component does: as resolving it,
/// except that handing out a resolved instance fails when it is shared.
pub open spec fn mutable_outcome<X>(
    before: Container,
    after: Container,
    r: Result<X, Error>,
    instance: TypeId,
    registration: TypeId,
    interface: TypeId,
) -> bool {
    if before.resolved_keys().contains(instance) {
        &&& after.resolved_keys() == before.resolved_keys()
        &&& after.registered_keys() == before.registered_keys()
        &&& (r matches Err(e) ==> (e matches Error::ResolveError(msg) && msg@ == shared_message(
            interface,
        )))
    } else if !before.registered_keys().contains(registration) {
        after == before && (r matches Err(Error::ResolveError(msg)) && msg@ == unregistered_message(
            interface,
        ))
    } else {
        r is Ok ==> after.resolved_keys().contains(instance)
    }
}

/// What is done with the result of building a registered component, where
/// `built_in` is the container as the build left it: an error is handed on
/// and nothing more changes; a success is stored as the resolved instance of
/// the type `instance` and handed out.
pub open spec fn registry_stored<I: ?Sized, X>(
    built_in: Container,
    built: Result<Box<I>, Error>,
    after: Container,
    r: Result<X, Error>,
    instance: TypeId,
) -> bool {
    match built {
        Ok(_) => {
            &&& r is Ok
            &&& after.resolved_keys() == built_in.resolved_keys().insert(instance)
            &&& after.registered_map() == built_in.registered_map()
        },
        Err(e) => r == Err::<X, Error>(e) && after == built_in,
    }
}

/// The container handed to the builder of the registration of the type
/// `registration`: `context` is `before` with that registration taken out.
pub open spec fn registration_taken(
    before: Container,
    context: Container,
    registration: TypeId,
) -> bool {
    &&& context.registered_keys() == before.registered_keys().remove(registration)
    &&& context.resolved_map() == before.resolved_map()
}

/// Whether resolving in `before` builds the component from its
/// registration: it is not resolved yet and is registered.
pub open spec fn builds_registration(
    before: Container,
    instance: TypeId,
    registration: TypeId,
) -> bool {
    !before.resolved_keys().contains(instance) && before.registered_keys().contains(registration)
}

/// What is done with the result of building a registered component that is
/// to be borrowed mutably: as [`registry_stored`], except that the stored
/// instance may be refused when it is shared.
pub open spec fn mutable_stored<I: ?Sized, X>(
    built_in: Container,
    built: Result<Box<I>, Error>,
    after: Container,
    r: Result<X, Error>,
    instance: TypeId,
    interface: TypeId,
) -> bool {
    match built {
        Ok(_) => {
            &&& after.resolved_keys() == built_in.resolved_keys().insert(instance)
            &&& after.registered_map() == built_in.registered_map()
            &&& (r matches Err(e) ==> (e matches Error::ResolveError(msg) && msg@ == shared_message(
                interface,
            )))
        },
        Err(e) => r == Err::<X, Error>(e) && after == built_in,
    }
}

/// What adding a parameter for the registration of the type `registration`
/// does to the container: the registrations and resolved components stay
/// the same, and without that registration nothing changes.
pub open spec fn parameter_added(before: Container, after: Container, registration: TypeId) -> bool {
    &&& after.registered_keys() == before.registered_keys()
    &&& after.resolved_map() == before.resolved_map()
    &&& (!before.registered_keys().contains(registration) ==> after == before)
}

/// Whether `after` is the registration `before` with its parameter map being
/// `parameters` and every parameter not under `changed` kept, all else as it
/// was.
pub open spec fn registration_with<I: ?Sized>(
    before: RegisteredType<I>,
    after: RegisteredType<I>,
    parameters: Map<IndexKey, TypeId>,
    changed: IndexKey,
) -> bool {
    &&& after.parameters@ == parameters
    &&& forall|k: IndexKey|
        k != changed ==> (#[trigger] after.parameters.parameters().contains_key(k)
            == before.parameters.parameters().contains_key(k) && after.parameters.parameters()[k]
            == before.parameters.parameters()[k])
    &&& after.component == before.component
    &&& after.interface_id == before.interface_id
    &&& after.builder == before.builder
    &&& after.dependencies == before.dependencies
}

impl Container {
    /// The registrations not resolved yet, by type.
    pub closed spec fn registered_map(&self) -> TypeMap {
        self.component_map
    }

    /// The resolved components, by type.
    pub closed spec fn resolved_map(&self) -> TypeMap {
        self.resolved_component_map
    }

    /// The types of the registrations not resolved yet.
    pub open spec fn registered_keys(&self) -> Set<TypeId> {
        type_map_keys(self.registered_map())
    }

    /// The types of the resolved components.
    pub open spec fn resolved_keys(&self) -> Set<TypeId> {
        type_map_keys(self.resolved_map())
    }

    /// A container holding the registrations of `init_map`; nothing is
    /// resolved yet.
    pub fn new(init_map: TypeMap) -> (r: Container)
        ensures
            r.registered_keys() == type_map_keys(init_map),
            r.resolved_keys() == Set::<TypeId>::empty(),
    {
        Container { component_map: init_map, resolved_component_map: TypeMap::new() }
    }

    /// Resolves the component registered with the interface `I`, where the
    /// keys name the types under which its instance and its registration
    /// are stored, and the interface itself.
    ///
    /// A resolved instance is handed out again. Otherwise the registration
    /// is taken out and the component built by its builder with its
    /// parameters; a built instance is stored as resolved and handed out
    /// (sharing the built value), a build error is handed on. Without a
    /// registration it is an error.
    pub fn resolve_with<I: ?Sized + 'static>(
        &mut self,
        instance_key: &TypeKey<Arc<I>>,
        registration_key: &TypeKey<RegisteredType<I>>,
        interface_key: &TypeKey<I>,
    ) -> (r: Result<Arc<I>, Error>)
        ensures
            registry_outcome(
                *old(self),
                *final(self),
                r,
                instance_key@,
                registration_key@,
                interface_key@,
            ),
            old(self).resolved_keys().contains(instance_key@) ==> (r matches Ok(a)
                && type_map_value::<Arc<I>>(old(self).resolved_map()) == Some(a)),
            builds_registration(*old(self), instance_key@, registration_key@) ==> exists|
                registration: RegisteredType<I>,
                context: &mut Container,
                built: Result<Box<I>, Error>,
            |
                {
                    &&& registration_taken(*old(self), *context, registration_key@)
                    &&& type_map_value::<RegisteredType<I>>(old(self).registered_map()) == Some(registration)
                    &&& #[trigger] registration.builder.may_give(
                        *context,
                        registration.parameters,
                        built,
                    )
                    &&& registry_stored(*final(context), built, *final(self), r, instance_key@)
                    &&& (built matches Ok(b) ==> (r matches Ok(a) && &*a == &*b
                        && type_map_value::<Arc<I>>(final(self).resolved_map()) == Some(a)))
                },
    {
        if self.resolved_component_map.contains(instance_key) {
            match self.resolved_component_map.get(instance_key) {
                Some(component) => {
                    return Ok(share_again(component));
                },
                None => {
                    proof {
                        assert(false);
                    }
                },
            }
        }
        match self.component_map.remove(registration_key) {
            None => {
                let mut msg = String::from_str("no component ");
                let name = type_id_text(&interface_key.type_id());
                msg.append(name.as_str());
                msg.append(" registered in this container");
                Err(Error::ResolveError(msg))
            },
            Some(registration) => match registration.build(self) {
                Ok(component) => {
                    let component = share(component);
                    self.resolved_component_map.insert(instance_key, share_again(&component));
                    Ok(component)
                },
                Err(e) => Err(e),
            },
        }
    }

    /// Creates or gets the component registered with the interface `I`.
    /// Its ownership is shared via `Arc`.
    pub fn resolve<I: ?Sized + 'static>(&mut self) -> (r: Result<Arc<I>, Error>)
        ensures
            ({
                let instance = type_id_of::<Arc<I>>();
                let registration = type_id_of::<RegisteredType<I>>();
                let interface = type_id_of::<I>();
                (old(self).resolved_keys().contains(instance) ==> (r matches Ok(a)
                    && type_map_value::<Arc<I>>(old(self).resolved_map()) == Some(a))) && registry_outcome(
                    *old(self),
                    *final(self),
                    r,
                    instance,
                    registration,
                    interface,
                ) && (builds_registration(*old(self), instance, registration) ==> exists|
                    registered: RegisteredType<I>,
                    context: &mut Container,
                    built: Result<Box<I>, Error>,
                |
                    {
                        &&& registration_taken(*old(self), *context, registration)
                        &&& type_map_value::<RegisteredType<I>>(old(self).registered_map()) == Some(registered)
                        &&& #[trigger] registered.builder.may_give(
                            *context,
                            registered.parameters,
                            built,
                        )
                        &&& registry_stored(*final(context), built, *final(self), r, instance)
                        &&& (built matches Ok(b) ==> (r matches Ok(a) && &*a == &*b
                        && type_map_value::<Arc<I>>(final(self).resolved_map()) == Some(a)))
                    })
            }),
    {
        let instance_key = TypeKey::<Arc<I>>::of();
        let registration_key = TypeKey::<RegisteredType<I>>::of();
        let interface_key = TypeKey::<I>::of();
        self.resolve_with(&instance_key, &registration_key, &interface_key)
    }

    /// A reference to the component registered with the interface `I`,
    /// resolving it first if needed.
    pub fn resolve_ref<I: ?Sized + 'static>(&mut self) -> (r: Result<&I, Error>)
        ensures
            ({
                let instance = type_id_of::<Arc<I>>();
                let registration = type_id_of::<RegisteredType<I>>();
                let interface = type_id_of::<I>();
                (old(self).resolved_keys().contains(instance) ==> (r matches Ok(x)
                    && type_map_value::<Arc<I>>(old(self).resolved_map()) matches Some(a) && x == &*a))
                    && registry_outcome(
                    *old(self),
                    *final(self),
                    r,
                    instance,
                    registration,
                    interface,
                ) && (builds_registration(*old(self), instance, registration) ==> exists|
                    registered: RegisteredType<I>,
                    context: &mut Container,
                    built: Result<Box<I>, Error>,
                |
                    {
                        &&& registration_taken(*old(self), *context, registration)
                        &&& type_map_value::<RegisteredType<I>>(old(self).registered_map()) == Some(registered)
                        &&& #[trigger] registered.builder.may_give(
                            *context,
                            registered.parameters,
                            built,
                        )
                        &&& registry_stored(*final(context), built, *final(self), r, instance)
                    })
            }),
    {
        let instance_key = TypeKey::<Arc<I>>::of();
        let registration_key = TypeKey::<RegisteredType<I>>::of();
        let interface_key = TypeKey::<I>::of();
        if !self.resolved_component_map.contains(&instance_key) {
            match self.resolve_with(&instance_key, &registration_key, &interface_key) {
                Ok(_) => {},
                Err(e) => {
                    return Err(e);
                },
            }
        }
        match self.resolved_component_map.get(&instance_key) {
            Some(component) => {
                Ok(shared_ref(component))
            },
            None => {
                proof {
                    assert(false);
                }
                Err(Error::ResolveError(String::new()))
            },
        }
    }

    /// A mutable reference to the component registered with the interface
    /// `I`, resolving it first if needed, where the keys are as for
    /// [`resolve_with`](Self::resolve_with). Fails as resolving does, and
    /// also when the component is jointly owned (an `Arc<I>` to it exists
    /// outside this container).
    pub fn resolve_mut_with<I: ?Sized + 'static>(
        &mut self,
        instance_key: &TypeKey<Arc<I>>,
        registration_key: &TypeKey<RegisteredType<I>>,
        interface_key: &TypeKey<I>,
    ) -> (r: Result<&mut I, Error>)
        ensures
            mutable_outcome(
                *old(self),
                *final(self),
                r,
                instance_key@,
                registration_key@,
                interface_key@,
            ),
            builds_registration(*old(self), instance_key@, registration_key@) ==> exists|
                registration: RegisteredType<I>,
                context: &mut Container,
                built: Result<Box<I>, Error>,
            |
                {
                    &&& registration_taken(*old(self), *context, registration_key@)
                    &&& type_map_value::<RegisteredType<I>>(old(self).registered_map()) == Some(registration)
                    &&& #[trigger] registration.builder.may_give(
                        *context,
                        registration.parameters,
                        built,
                    )
                    &&& mutable_stored(
                        *final(context),
                        built,
                        *final(self),
                        r,
                        instance_key@,
                        interface_key@,
                    )
                },
    {
        if !self.resolved_component_map.contains(instance_key) {
            match self.resolve_with(instance_key, registration_key, interface_key) {
                Ok(_) => {},
                Err(e) => {
                    return Err(e);
                },
            }
        }
        match self.resolved_component_map.get_mut(instance_key) {
            Some(component) => match exclusive_mut(component) {
                Some(c) => Ok(c),
                None => {
                    let mut msg = String::from_str("Unable to get a mutable reference of component ");
                    let name = type_id_text(&interface_key.type_id());
                    msg.append(name.as_str());
                    msg.append(", there are existing Arc references");
                    Err(Error::ResolveError(msg))
                },
            },
            None => {
                proof {
                    assert(false);
                }
                Err(Error::ResolveError(String::new()))
            },
        }
    }

    /// A mutable reference to the component registered with the interface
    /// `I`, resolving it first if needed. Fails as [`resolve`](Self::resolve)
    /// does, and also when the component is jointly owned (an `Arc<I>` to it
    /// exists outside this container).
    pub fn resolve_mut<I: ?Sized + 'static>(&mut self) -> (r: Result<&mut I, Error>)
        ensures
            ({
                let instance = type_id_of::<Arc<I>>();
                let registration = type_id_of::<RegisteredType<I>>();
                let interface = type_id_of::<I>();
                mutable_outcome(
                    *old(self),
                    *final(self),
                    r,
                    instance,
                    registration,
                    interface,
                ) && (builds_registration(*old(self), instance, registration) ==> exists|
                    registered: RegisteredType<I>,
                    context: &mut Container,
                    built: Result<Box<I>, Error>,
                |
                    {
                        &&& registration_taken(*old(self), *context, registration)
                        &&& type_map_value::<RegisteredType<I>>(old(self).registered_map()) == Some(registered)
                        &&& #[trigger] registered.builder.may_give(
                            *context,
                            registered.parameters,
                            built,
                        )
                        &&& mutable_stored(*final(context), built, *final(self), r, instance, interface)
                    })
            }),
    {
        let instance_key = TypeKey::<Arc<I>>::of();
        let registration_key = TypeKey::<RegisteredType<I>>::of();
        let interface_key = TypeKey::<I>::of();
        self.resolve_mut_with(&instance_key, &registration_key, &interface_key)
    }

    /// Adds a named parameter for the registered component `I`, whose
    /// registration is stored under the type that `key` names. If `I` is not
    /// registered, or has already been resolved, nothing changes.
    pub fn with_named_parameter_with<I: ?Sized + 'static, V: 'static>(
        &mut self,
        key: &TypeKey<RegisteredType<I>>,
        name: &str,
        value: V,
    ) -> (r: &mut Self)
        ensures
            parameter_added(*old(self), *r, key@),
            type_map_value::<RegisteredType<I>>(old(self).registered_map()) matches Some(before)
                ==> (type_map_value::<RegisteredType<I>>(r.registered_map()) matches Some(after)
                && registration_with(
                before,
                after,
                before.parameters@.insert(IndexKey::Name(name@), type_id_of::<V>()),
                IndexKey::Name(name@),
            ) && after.parameters.value_at::<V>(IndexKey::Name(name@)) == Some(value)),
            *final(self) == *final(r),
    {
        match self.component_map.get_mut(key) {
            Some(registered_type) => {
                registered_type.with_named_parameter(name, value);
            },
            None => {},
        }
        self
    }

    /// Adds a named parameter for the registered component `I`. If `I` is
    /// not registered, or has already been resolved, nothing changes.
    pub fn with_named_parameter<I: ?Sized + 'static, V: 'static>(&mut self, name: &str, value: V) -> (r: &mut Self)
        ensures
            parameter_added(*old(self), *r, type_id_of::<RegisteredType<I>>()),
            type_map_value::<RegisteredType<I>>(old(self).registered_map()) matches Some(before)
                ==> (type_map_value::<RegisteredType<I>>(r.registered_map()) matches Some(after)
                && registration_with(
                before,
                after,
                before.parameters@.insert(IndexKey::Name(name@), type_id_of::<V>()),
                IndexKey::Name(name@),
            ) && after.parameters.value_at::<V>(IndexKey::Name(name@)) == Some(value)),
            *final(self) == *final(r),
    {
        let key = TypeKey::<RegisteredType<I>>::of();
        self.with_named_parameter_with(&key, name, value)
    }

    /// Adds a typed parameter for the registered component `I`, whose
    /// registration is stored under the type that `key` names. If `I` is not
    /// registered, or has already been resolved, nothing changes.
    pub fn with_typed_parameter_with<I: ?Sized + 'static, V: 'static>(
        &mut self,
        key: &TypeKey<RegisteredType<I>>,
        value: V,
    ) -> (r: &mut Self)
        ensures
            parameter_added(*old(self), *r, key@),
            type_map_value::<RegisteredType<I>>(old(self).registered_map()) matches Some(before)
                ==> (type_map_value::<RegisteredType<I>>(r.registered_map()) matches Some(after)
                && registration_with(
                before,
                after,
                before.parameters@.insert(IndexKey::Type(type_id_of::<V>()), type_id_of::<V>()),
                IndexKey::Type(type_id_of::<V>()),
            ) && after.parameters.value_at::<V>(IndexKey::Type(type_id_of::<V>())) == Some(value)),
            *final(self) == *final(r),
    {
        match self.component_map.get_mut(key) {
            Some(registered_type) => {
                registered_type.with_typed_parameter(value);
            },
            None => {},
        }
        self
    }

    /// Adds a typed parameter for the registered component `I`. If `I` is
    /// not registered, or has already been resolved, nothing changes.
    pub fn with_typed_parameter<I: ?Sized + 'static, V: 'static>(&mut self, value: V) -> (r: &mut Self)
        ensures
            parameter_added(*old(self), *r, type_id_of::<RegisteredType<I>>()),
            type_map_value::<RegisteredType<I>>(old(self).registered_map()) matches Some(before)
                ==> (type_map_value::<RegisteredType<I>>(r.registered_map()) matches Some(after)
                && registration_with(
                before,
                after,
                before.parameters@.insert(IndexKey::Type(type_id_of::<V>()), type_id_of::<V>()),
                IndexKey::Type(type_id_of::<V>()),
            ) && after.parameters.value_at::<V>(IndexKey::Type(type_id_of::<V>())) == Some(value)),
            *final(self) == *final(r),
    {
        let key = TypeKey::<RegisteredType<I>>::of();
        self.with_typed_parameter_with(&key, value)
    }
}

} // verus!
