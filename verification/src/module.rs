//! The traits through which modules, components and providers are defined,
//! and the function types used to override services.
use crate::build_context::ModuleBuildContext;
use crate::error::Error;
use std::marker::PhantomData;
use std::sync::Arc;
use vstd::prelude::*;

verus! {

/// A module represents a group of services. At run time a module holds the
/// components it is associated with; providers are called on demand.
///
/// Modules can use other modules as submodules, which are handed to the
/// module's builder.
pub trait Module: Sized + 'static {
    /// The submodules of this module (use `()` if there are none).
    type Submodules;

    /// Creates the module instance by resolving the components this module
    /// provides. Fails if a component cannot be resolved, for instance
    /// because of a circular dependency.
    fn build(context: &mut ModuleBuildContext<Self>) -> Result<Self, Error>;
}

/// Components provide a service by implementing an interface. They may use
/// other components as dependencies. A component is built once per module
/// and shared.
pub trait Component<M: Module>: 'static {
    /// The trait/interface which this component implements.
    type Interface: ?Sized + 'static;

    /// The parameters this component requires. If none are required, use
    /// `()`.
    type Parameters: Default + 'static;

    /// Uses the build context and parameters to create the component. Other
    /// components are resolved through
    /// [`ModuleBuildContext::build_component`].
    fn build(context: &mut ModuleBuildContext<M>, params: Self::Parameters) -> Result<
        Box<Self::Interface>,
        Error,
    >;
}

/// Indicates that a module contains a component which implements the
/// interface `I`.
pub trait HasComponent<I: ?Sized + 'static> {
    /// Builds the component while the module is built. Usually this calls
    /// [`ModuleBuildContext::build_component`] with the implementation.
    fn build_component(context: &mut ModuleBuildContext<Self>) -> Result<Arc<I>, Error> where
        Self: Module,
    ;

    /// A reference to the component, whose ownership is shared.
    fn resolve(&self) -> Arc<I>;

    /// A reference to the component.
    fn resolve_ref(&self) -> &I;

    /// A mutable reference to the component; `None` when the component is
    /// jointly owned (an `Arc<I>` to it exists outside the module).
    fn resolve_mut(&mut self) -> Option<&mut I>;
}

/// Like components, providers provide a service by implementing an
/// interface. Unlike a component, a provider creates a new instance of its
/// service each time it is asked.
pub trait Provider<M: Module>: 'static {
    /// The trait/interface which this provider implements.
    type Interface: ?Sized + 'static;

    /// Provides the service, possibly resolving other components/providers
    /// to do so.
    fn provide(module: &M) -> Result<Box<Self::Interface>, Error>;
}

/// Indicates that a module contains a provider which implements the
/// interface `I`.
pub trait HasProvider<I: ?Sized + 'static> {
    /// Creates a service using the provider registered with the interface
    /// `I`. Each call creates a new instance of the service.
    fn provide(&self) -> Result<Box<I>, Error>;
}

/// Indicates that a module contains a submodule.
pub trait HasSubmodule<M: Module> {
    /// The submodule.
    fn get_submodule(&self) -> &M;
}

/// The parameters of the component `C`. They are stored under a type that
/// names the component, so that two components whose parameters have the
/// same type do not overwrite each other's.
pub struct ComponentParameters<C, P> {
    pub value: P,
    pub component: PhantomData<C>,
}

impl<C, P> ComponentParameters<C, P> {
    /// Wraps the parameters of `C`.
    pub fn new(value: P) -> (r: Self)
        ensures
            r.value == value,
    {
        ComponentParameters { value, component: PhantomData }
    }
}

/// A provider function, boxed (`Box<dyn Fn(&M) -> Result<Box<I>, Error>>`).
///
/// The verifier cannot see a `dyn Fn`, so the box is held in a private field
/// of this type.
#[verifier::external_body]
#[verifier::reject_recursive_types(M)]
#[verifier::reject_recursive_types(I)]
pub struct BoxedProviderFn<M, I: ?Sized> {
    inner: Box<dyn Fn(&M) -> Result<Box<I>, Error>>,
}

/// The signature of [`Provider::provide`], boxed, together with what the
/// boxed function may give for each module. This is used when overriding a
/// provider.
#[verifier::reject_recursive_types(M)]
#[verifier::reject_recursive_types(I)]
pub struct ProviderFn<M, I: ?Sized> {
    boxed: BoxedProviderFn<M, I>,
    gives: Ghost<spec_fn(M, Result<Box<I>, Error>) -> bool>,
}

/// Boxes `f` with `Box::new`.
#[verifier::external_body]
fn box_provider_fn<M: 'static, I: ?Sized + 'static, F: Fn(&M) -> Result<Box<I>, Error> + 'static>(
    f: F,
) -> BoxedProviderFn<M, I> {
    BoxedProviderFn { inner: Box::new(f) }
}

impl<M: 'static, I: ?Sized + 'static> ProviderFn<M, I> {
    /// Whether calling the function on `module` may give `r`.
    pub closed spec fn may_give(&self, module: M, r: Result<Box<I>, Error>) -> bool {
        (self.gives@)(module, r)
    }

    /// Boxes `f`; calling the result gives what `f` gives.
    pub fn new<F: Fn(&M) -> Result<Box<I>, Error> + 'static>(f: F) -> (r: ProviderFn<M, I>)
        requires
            forall|m: &M| #[trigger] f.requires((m,)),
        ensures
            forall|m: M, res: Result<Box<I>, Error>| #[trigger]
                r.may_give(m, res) == call_ensures(f, (&m,), res),
    {
        let ghost gives = |m: M, res: Result<Box<I>, Error>| call_ensures(f, (&m,), res);
        ProviderFn { boxed: box_provider_fn(f), gives: Ghost(gives) }
    }

    /// Calls the boxed function.
    ///
    /// Claimed: the result is one that the boxed function may give for
    /// `module`. A `ProviderFn` is only made by [`ProviderFn::new`], which
    /// records what the function it boxes may give, and that function may
    /// be called on any module.
    #[verifier::external_body]
    pub fn call(&self, module: &M) -> (r: Result<Box<I>, Error>)
        ensures
            self.may_give(*module, r),
    {
        (self.boxed.inner)(module)
    }
}

/// A function that builds a component in place of its implementation, boxed
/// (`Box<dyn FnOnce(&mut ModuleBuildContext<M>) -> Result<Box<I>, Error>>`).
///
/// The verifier cannot see a `dyn FnOnce`, so the box is held in a private
/// field of this type.
#[verifier::external_body]
#[verifier::reject_recursive_types(M)]
#[verifier::reject_recursive_types(I)]
pub struct BoxedComponentFn<M: Module, I: ?Sized> {
    inner: Box<dyn FnOnce(&mut ModuleBuildContext<M>) -> Result<Box<I>, Error>>,
}

/// Boxes `f` with `Box::new`.
#[verifier::external_body]
fn box_component_fn<
    M: Module,
    I: ?Sized + 'static,
    F: FnOnce(&mut ModuleBuildContext<M>) -> Result<Box<I>, Error> + 'static,
>(f: F) -> BoxedComponentFn<M, I> {
    BoxedComponentFn { inner: Box::new(f) }
}

/// A function that builds a component in place of its implementation,
/// boxed, together with what it may give for each build context. This is
/// used when overriding a component with a function.
#[verifier::reject_recursive_types(M)]
#[verifier::reject_recursive_types(I)]
pub struct ComponentFn<M: Module, I: ?Sized> {
    boxed: BoxedComponentFn<M, I>,
    gives: Ghost<spec_fn(ModuleBuildContext<M>, Result<Box<I>, Error>) -> bool>,
}

impl<M: Module, I: ?Sized + 'static> ComponentFn<M, I> {
    /// Whether calling the function on a build context that is `context`
    /// may give `r`.
    pub closed spec fn may_give(&self, context: ModuleBuildContext<M>, r: Result<Box<I>, Error>) -> bool {
        (self.gives@)(context, r)
    }

    /// Boxes `f`; calling the result gives what `f` gives.
    pub fn new<F: FnOnce(&mut ModuleBuildContext<M>) -> Result<Box<I>, Error> + 'static>(f: F) -> (r:
        ComponentFn<M, I>)
        requires
            forall|c: &mut ModuleBuildContext<M>| #[trigger] f.requires((c,)),
        ensures
            forall|c0: ModuleBuildContext<M>, res: Result<Box<I>, Error>|
                #[trigger] r.may_give(c0, res) == exists|c: &mut ModuleBuildContext<M>|
                    {
                        &&& *c == c0
                        &&& #[trigger] call_ensures(f, (c,), res)
                    },
    {
        let ghost gives = |c0: ModuleBuildContext<M>, res: Result<Box<I>, Error>|
            exists|c: &mut ModuleBuildContext<M>|
                {
                    &&& *c == c0
                    &&& #[trigger] call_ensures(f, (c,), res)
                };
        ComponentFn { boxed: box_component_fn(f), gives: Ghost(gives) }
    }

    /// Calls the boxed function.
    ///
    /// Claimed: the result is one that the boxed function may give for the
    /// context as it is when it is called. A `ComponentFn` is only made by
    /// [`ComponentFn::new`], which records what the function it boxes may
    /// give, and that function may be called on any context. Nothing is
    /// claimed of what the function does to the context: it is the user's.
    #[verifier::external_body]
    pub fn call(self, context: &mut ModuleBuildContext<M>) -> (r: Result<Box<I>, Error>)
        ensures
            self.may_give(*old(context), r),
    {
        (self.boxed.inner)(context)
    }
}

/// `Arc::from(Box<I>)`: moves the boxed value into a new shared allocation.
///
/// Claimed: the shared value is the boxed one.
#[verifier::external_body]
pub fn share<I: ?Sized>(b: Box<I>) -> (r: Arc<I>)
    ensures
        &*r == &*b,
{
    Arc::from(b)
}

/// `Arc::clone`: another handle to the same value.
///
/// Claimed: the result is the same shared value.
#[verifier::external_body]
pub fn share_again<I: ?Sized>(a: &Arc<I>) -> (r: Arc<I>)
    ensures
        r == *a,
{
    Arc::clone(a)
}

/// `Arc::as_ref`: a reference to the shared value.
///
/// Claimed: the reference is to the value that `a` shares.
#[verifier::external_body]
pub fn shared_ref<I: ?Sized>(a: &Arc<I>) -> (r: &I)
    ensures
        r == &**a,
{
    Arc::as_ref(a)
}

/// `Arc::get_mut`: a mutable reference to the shared value, if no other
/// `Arc` or `Weak` refers to it.
///
/// Claimed: when no reference is handed out, the `Arc` is untouched. Which of
/// the two happens is not claimed: that depends on handles held elsewhere.
#[verifier::external_body]
pub fn exclusive_mut<I: ?Sized>(a: &mut Arc<I>) -> (r: Option<&mut I>)
    ensures
        r is None ==> *final(a) == *old(a),
{
    Arc::get_mut(a)
}

} // verus!
