use shaku::{
    Component, Container, ContainerBuilder, Error, HasComponent, HasProvider, HasSubmodule,
    Module, ModuleBuildContext, ProviderFn,
};
use std::sync::Arc;

trait Counter {
    fn value(&self) -> usize;
    fn set(&mut self, value: usize);
}

struct CounterImpl {
    value: usize,
}

#[derive(Default)]
struct CounterParameters {
    start: usize,
}

impl Counter for CounterImpl {
    fn value(&self) -> usize {
        self.value
    }
    fn set(&mut self, value: usize) {
        self.value = value;
    }
}

impl<M: Module> Component<M> for CounterImpl {
    type Interface = dyn Counter;
    type Parameters = CounterParameters;
    fn build(_: &mut ModuleBuildContext<M>, p: CounterParameters) -> Result<Box<dyn Counter>, Error> {
        Ok(Box::new(CounterImpl { value: p.start }))
    }
}

trait Ticket {
    fn number(&self) -> usize;
}
struct TicketImpl(usize);
impl Ticket for TicketImpl {
    fn number(&self) -> usize {
        self.0
    }
}

struct InnerModule {
    counter: Arc<dyn Counter>,
}

impl Module for InnerModule {
    type Submodules = ();
    fn build(context: &mut ModuleBuildContext<Self>) -> Result<Self, Error> {
        Ok(InnerModule {
            counter: context.build_component::<CounterImpl>()?,
        })
    }
}

impl HasComponent<dyn Counter> for InnerModule {
    fn build_component(context: &mut ModuleBuildContext<Self>) -> Result<Arc<dyn Counter>, Error> {
        context.build_component::<CounterImpl>()
    }
    fn resolve(&self) -> Arc<dyn Counter> {
        Arc::clone(&self.counter)
    }
    fn resolve_ref(&self) -> &(dyn Counter + 'static) {
        self.counter.as_ref()
    }
    fn resolve_mut(&mut self) -> Option<&mut (dyn Counter + 'static)> {
        Arc::get_mut(&mut self.counter)
    }
}

impl HasProvider<dyn Ticket> for InnerModule {
    fn provide(&self) -> Result<Box<dyn Ticket>, Error> {
        Ok(Box::new(TicketImpl(self.counter.value())))
    }
}

struct OuterModule {
    inner: InnerModule,
}

impl Module for OuterModule {
    type Submodules = ();
    fn build(context: &mut ModuleBuildContext<Self>) -> Result<Self, Error> {
        let inner = context.as_submodule((), |sub: &mut ModuleBuildContext<InnerModule>| {
            InnerModule::build(sub)
        })?;
        Ok(OuterModule { inner })
    }
}

impl HasSubmodule<InnerModule> for OuterModule {
    fn get_submodule(&self) -> &InnerModule {
        &self.inner
    }
}

#[test]
fn container_resolves_with_parameters() {
    let mut builder = ContainerBuilder::<InnerModule>::new();
    builder.with_component_parameters::<CounterImpl>(CounterParameters { start: 17 });
    let mut container = builder.build().unwrap();
    assert_eq!(container.resolve_ref::<dyn Counter>().value(), 17);
    container.resolve_mut::<dyn Counter>().unwrap().set(99);
    let counter: Arc<dyn Counter> = container.resolve::<dyn Counter>();
    assert_eq!(counter.value(), 99);
    assert!(container.resolve_mut::<dyn Counter>().is_none());
}

#[test]
fn container_default_uses_default_parameters() {
    let container = Container::<InnerModule>::default().unwrap();
    assert_eq!(container.resolve_ref::<dyn Counter>().value(), 0);
    let ticket = container.provide::<dyn Ticket>().unwrap();
    assert_eq!(ticket.number(), 0);
}

#[test]
fn container_provider_override() {
    let mut builder = ContainerBuilder::<InnerModule>::new();
    builder.with_provider_override::<dyn Ticket>(ProviderFn::new(|_: &InnerModule| {
        Ok(Box::new(TicketImpl(42)) as Box<dyn Ticket>)
    }));
    let container = builder.build().unwrap();
    assert_eq!(container.provide::<dyn Ticket>().unwrap().number(), 42);
}

#[test]
fn container_component_override() {
    let mut builder = ContainerBuilder::<InnerModule>::new();
    builder
        .with_component_parameters::<CounterImpl>(CounterParameters { start: 1 })
        .with_component_override::<dyn Counter>(Box::new(CounterImpl { value: 5 }));
    let container = builder.build().unwrap();
    assert_eq!(container.resolve_ref::<dyn Counter>().value(), 5);
}

#[test]
fn sub_container_cannot_mutate() {
    let mut builder = ContainerBuilder::<OuterModule>::new();
    let outer = builder.build().unwrap();
    let mut inner = outer.sub_container::<InnerModule>();
    assert_eq!(inner.resolve_ref::<dyn Counter>().value(), 0);
    assert!(inner.resolve_mut::<dyn Counter>().is_none());
    assert_eq!(inner.provide::<dyn Ticket>().unwrap().number(), 0);
}

// A provider that fails.

trait Refusal {}

impl HasProvider<dyn Refusal> for InnerModule {
    fn provide(&self) -> Result<Box<dyn Refusal>, Error> {
        Err(Error::Registration("no refusal today".to_string()))
    }
}

#[test]
fn failing_provider_gives_a_resolve_error() {
    let container = Container::<InnerModule>::default().unwrap();
    match container.provide::<dyn Refusal>() {
        Err(Error::ResolveError(msg)) => assert_eq!(msg, "no refusal today"),
        Err(other) => panic!("unexpected error {:?}", other),
        Ok(_) => panic!("the provider did not fail"),
    }
}

#[test]
fn failing_provider_override_gives_a_resolve_error() {
    let mut builder = ContainerBuilder::<InnerModule>::new();
    builder.with_provider_override::<dyn Ticket>(ProviderFn::new(|_: &InnerModule| {
        Err::<Box<dyn Ticket>, Error>(Error::Registration("sold out".to_string()))
    }));
    let container = builder.build().unwrap();
    match container.provide::<dyn Ticket>() {
        Err(Error::ResolveError(msg)) => assert_eq!(msg, "sold out"),
        Err(other) => panic!("unexpected error {:?}", other),
        Ok(_) => panic!("the override did not fail"),
    }
}

#[test]
fn sub_container_sees_the_submodule() {
    let mut builder = ContainerBuilder::<OuterModule>::new();
    let mut outer = builder.build().unwrap();
    if let Some(module) = outer.inner.module_mut() {
        let counter = Arc::get_mut(&mut module.inner.counter).unwrap();
        counter.set(8);
    }
    let inner = outer.sub_container::<InnerModule>();
    assert_eq!(inner.resolve_ref::<dyn Counter>().value(), 8);
    assert_eq!(inner.provide::<dyn Ticket>().unwrap().number(), 8);
}
