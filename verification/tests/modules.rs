use shaku::{
    Component, ComponentFn, Error, HasComponent, HasProvider, Module, ModuleBuildContext,
    ModuleBuilder, Provider, ProviderFn, TypeKey,
};
use std::sync::Arc;

trait Logger {
    fn name(&self) -> String;
}

trait DateLogger {
    fn date(&self) -> String;
    fn logger(&self) -> Arc<dyn Logger>;
}

trait Greeter {
    fn greet(&self) -> String;
}

struct LoggerImpl;
impl Logger for LoggerImpl {
    fn name(&self) -> String {
        "real".to_string()
    }
}

struct FakeLogger;
impl Logger for FakeLogger {
    fn name(&self) -> String {
        "fake".to_string()
    }
}

impl<M: Module> Component<M> for LoggerImpl {
    type Interface = dyn Logger;
    type Parameters = ();

    fn build(_: &mut ModuleBuildContext<M>, _: ()) -> Result<Box<dyn Logger>, Error> {
        Ok(Box::new(LoggerImpl))
    }
}

struct DateLoggerImpl {
    logger: Arc<dyn Logger>,
    today: String,
    year: usize,
}

#[derive(Default)]
struct DateLoggerImplParameters {
    today: String,
    year: usize,
}

impl DateLogger for DateLoggerImpl {
    fn date(&self) -> String {
        format!("Today is {}, {}", self.today, self.year)
    }
    fn logger(&self) -> Arc<dyn Logger> {
        Arc::clone(&self.logger)
    }
}

impl<M: Module + HasComponent<dyn Logger>> Component<M> for DateLoggerImpl {
    type Interface = dyn DateLogger;
    type Parameters = DateLoggerImplParameters;

    fn build(
        context: &mut ModuleBuildContext<M>,
        params: DateLoggerImplParameters,
    ) -> Result<Box<dyn DateLogger>, Error> {
        Ok(Box::new(DateLoggerImpl {
            logger: M::build_component(context)?,
            today: params.today,
            year: params.year,
        }))
    }
}

struct GreeterImpl {
    logger: Arc<dyn Logger>,
}
impl Greeter for GreeterImpl {
    fn greet(&self) -> String {
        format!("hello from {}", self.logger.name())
    }
}
impl<M: Module + HasComponent<dyn Logger>> Provider<M> for GreeterImpl {
    type Interface = dyn Greeter;

    fn provide(module: &M) -> Result<Box<dyn Greeter>, Error> {
        Ok(Box::new(GreeterImpl {
            logger: module.resolve(),
        }))
    }
}

struct MyModule {
    logger: Arc<dyn Logger>,
    date_logger: Arc<dyn DateLogger>,
    greeter: Arc<ProviderFn<MyModule, dyn Greeter>>,
}

impl Module for MyModule {
    type Submodules = ();

    fn build(context: &mut ModuleBuildContext<Self>) -> Result<Self, Error> {
        Ok(MyModule {
            logger: <Self as HasComponent<dyn Logger>>::build_component(context)?,
            date_logger: <Self as HasComponent<dyn DateLogger>>::build_component(context)?,
            greeter: context.provider_fn::<GreeterImpl>(),
        })
    }
}

impl HasComponent<dyn Logger> for MyModule {
    fn build_component(context: &mut ModuleBuildContext<Self>) -> Result<Arc<dyn Logger>, Error> {
        context.build_component::<LoggerImpl>()
    }
    fn resolve(&self) -> Arc<dyn Logger> {
        Arc::clone(&self.logger)
    }
    fn resolve_ref(&self) -> &(dyn Logger + 'static) {
        self.logger.as_ref()
    }
    fn resolve_mut(&mut self) -> Option<&mut (dyn Logger + 'static)> {
        Arc::get_mut(&mut self.logger)
    }
}

impl HasComponent<dyn DateLogger> for MyModule {
    fn build_component(
        context: &mut ModuleBuildContext<Self>,
    ) -> Result<Arc<dyn DateLogger>, Error> {
        context.build_component::<DateLoggerImpl>()
    }
    fn resolve(&self) -> Arc<dyn DateLogger> {
        Arc::clone(&self.date_logger)
    }
    fn resolve_ref(&self) -> &(dyn DateLogger + 'static) {
        self.date_logger.as_ref()
    }
    fn resolve_mut(&mut self) -> Option<&mut (dyn DateLogger + 'static)> {
        Arc::get_mut(&mut self.date_logger)
    }
}

impl HasProvider<dyn Greeter> for MyModule {
    fn provide(&self) -> Result<Box<dyn Greeter>, Error> {
        self.greeter.call(self)
    }
}

fn params() -> DateLoggerImplParameters {
    DateLoggerImplParameters {
        today: "Jan 26".to_string(),
        year: 2020,
    }
}

#[test]
fn components_get_their_parameters() {
    let module = ModuleBuilder::<MyModule>::with_submodules(())
        .with_component_parameters::<DateLoggerImpl>(params())
        .build()
        .unwrap();
    let date_logger: &dyn DateLogger = module.resolve_ref();
    assert_eq!(date_logger.date(), "Today is Jan 26, 2020");
}

#[test]
fn parameters_default_when_not_set() {
    let module = ModuleBuilder::<MyModule>::with_submodules(()).build().unwrap();
    let date_logger: &dyn DateLogger = module.resolve_ref();
    assert_eq!(date_logger.date(), "Today is , 0");
}

#[test]
fn a_component_is_built_once_and_shared() {
    let module = ModuleBuilder::<MyModule>::with_submodules(()).build().unwrap();
    let a: Arc<dyn Logger> = module.resolve();
    let b: Arc<dyn Logger> = module.resolve();
    assert!(Arc::ptr_eq(&a, &b));
    let date_logger: Arc<dyn DateLogger> = module.resolve();
    assert!(Arc::ptr_eq(&a, &date_logger.logger()));
}

#[test]
fn component_override_replaces_the_implementation() {
    let module = ModuleBuilder::<MyModule>::with_submodules(())
        .with_component_override::<dyn Logger>(Box::new(FakeLogger))
        .build()
        .unwrap();
    let logger: &dyn Logger = module.resolve_ref();
    assert_eq!(logger.name(), "fake");
    let date_logger: Arc<dyn DateLogger> = module.resolve();
    assert_eq!(date_logger.logger().name(), "fake");
}

#[test]
fn component_override_fn_builds_the_component() {
    let module = ModuleBuilder::<MyModule>::with_submodules(())
        .with_component_override_fn::<dyn Logger>(ComponentFn::new(|_| {
            Ok(Box::new(FakeLogger) as Box<dyn Logger>)
        }))
        .build()
        .unwrap();
    let logger: &dyn Logger = module.resolve_ref();
    assert_eq!(logger.name(), "fake");
}

#[test]
fn providers_create_new_instances_and_can_be_overridden() {
    let module = ModuleBuilder::<MyModule>::with_submodules(()).build().unwrap();
    let greeter: Box<dyn Greeter> = module.provide().unwrap();
    assert_eq!(greeter.greet(), "hello from real");

    struct Loud;
    impl Greeter for Loud {
        fn greet(&self) -> String {
            "HELLO".to_string()
        }
    }
    let module = ModuleBuilder::<MyModule>::with_submodules(())
        .with_provider_override::<dyn Greeter>(ProviderFn::new(|_: &MyModule| {
            Ok(Box::new(Loud) as Box<dyn Greeter>)
        }))
        .build()
        .unwrap();
    let greeter: Box<dyn Greeter> = module.provide().unwrap();
    assert_eq!(greeter.greet(), "HELLO");
}

#[test]
fn resolve_mut_needs_exclusive_ownership() {
    let mut module = ModuleBuilder::<MyModule>::with_submodules(()).build().unwrap();
    assert!(HasComponent::<dyn DateLogger>::resolve_mut(&mut module).is_some());
    let _shared: Arc<dyn DateLogger> = module.resolve();
    assert!(HasComponent::<dyn DateLogger>::resolve_mut(&mut module).is_none());
}

// Two components that depend on each other.

trait Ping {}
trait Pong {}
struct PingImpl;
struct PongImpl;
impl Ping for PingImpl {}
impl Pong for PongImpl {}

impl<M: Module + HasComponent<dyn Pong>> Component<M> for PingImpl {
    type Interface = dyn Ping;
    type Parameters = ();
    fn build(context: &mut ModuleBuildContext<M>, _: ()) -> Result<Box<dyn Ping>, Error> {
        let _pong = M::build_component(context)?;
        Ok(Box::new(PingImpl))
    }
}

impl<M: Module + HasComponent<dyn Ping>> Component<M> for PongImpl {
    type Interface = dyn Pong;
    type Parameters = ();
    fn build(context: &mut ModuleBuildContext<M>, _: ()) -> Result<Box<dyn Pong>, Error> {
        let _ping = M::build_component(context)?;
        Ok(Box::new(PongImpl))
    }
}

struct CycleModule {
    ping: Arc<dyn Ping>,
    pong: Arc<dyn Pong>,
}

impl Module for CycleModule {
    type Submodules = ();
    fn build(context: &mut ModuleBuildContext<Self>) -> Result<Self, Error> {
        Ok(CycleModule {
            ping: <Self as HasComponent<dyn Ping>>::build_component(context)?,
            pong: <Self as HasComponent<dyn Pong>>::build_component(context)?,
        })
    }
}

impl HasComponent<dyn Ping> for CycleModule {
    fn build_component(context: &mut ModuleBuildContext<Self>) -> Result<Arc<dyn Ping>, Error> {
        context.build_component::<PingImpl>()
    }
    fn resolve(&self) -> Arc<dyn Ping> {
        Arc::clone(&self.ping)
    }
    fn resolve_ref(&self) -> &(dyn Ping + 'static) {
        self.ping.as_ref()
    }
    fn resolve_mut(&mut self) -> Option<&mut (dyn Ping + 'static)> {
        Arc::get_mut(&mut self.ping)
    }
}

impl HasComponent<dyn Pong> for CycleModule {
    fn build_component(context: &mut ModuleBuildContext<Self>) -> Result<Arc<dyn Pong>, Error> {
        context.build_component::<PongImpl>()
    }
    fn resolve(&self) -> Arc<dyn Pong> {
        Arc::clone(&self.pong)
    }
    fn resolve_ref(&self) -> &(dyn Pong + 'static) {
        self.pong.as_ref()
    }
    fn resolve_mut(&mut self) -> Option<&mut (dyn Pong + 'static)> {
        Arc::get_mut(&mut self.pong)
    }
}

#[test]
fn circular_dependency_is_reported() {
    match ModuleBuilder::<CycleModule>::with_submodules(()).build() {
        Err(Error::ResolveError(msg)) => {
            assert!(msg.starts_with("Circular dependency detected while resolving "));
            assert!(msg.contains(&format!("{:?}", std::any::TypeId::of::<dyn Ping>())));
            assert!(msg.contains("Resolution chain: ["));
        }
        Err(other) => panic!("unexpected error {:?}", other),
        Ok(_) => panic!("a circular dependency was not detected"),
    }
}

#[test]
fn overriding_breaks_the_cycle() {
    let module = ModuleBuilder::<CycleModule>::with_submodules(())
        .with_component_override::<dyn Pong>(Box::new(PongImpl))
        .build();
    assert!(module.is_ok());
}

#[test]
fn override_fn_result_is_shared_with_dependents() {
    let module = ModuleBuilder::<MyModule>::with_submodules(())
        .with_component_override_fn::<dyn Logger>(ComponentFn::new(|_| {
            Ok(Box::new(FakeLogger) as Box<dyn Logger>)
        }))
        .build()
        .unwrap();
    let logger: Arc<dyn Logger> = module.resolve();
    let date_logger: Arc<dyn DateLogger> = module.resolve();
    assert!(Arc::ptr_eq(&logger, &date_logger.logger()));
    assert_eq!(date_logger.logger().name(), "fake");
}

#[test]
fn build_error_is_handed_on() {
    let result = ModuleBuilder::<MyModule>::with_submodules(())
        .with_component_override_fn::<dyn Logger>(ComponentFn::new(|_| {
            Err::<Box<dyn Logger>, Error>(Error::Registration("no logger".to_string()))
        }))
        .build();
    match result {
        Err(e) => assert_eq!(e, Error::Registration("no logger".to_string())),
        Ok(_) => panic!("the build did not fail"),
    }
}

#[test]
fn store_built_hands_on_an_error_and_stores_an_instance() {
    let mut context = ModuleBuilder::<MyModule>::with_submodules(()).into_context();
    let key = TypeKey::<Arc<dyn Logger>>::of();
    let failed = context.store_built::<dyn Logger>(&key, Err(Error::ResolveError("failed".to_string())));
    assert_eq!(failed.err(), Some(Error::ResolveError("failed".to_string())));
    let real = context.build_component::<LoggerImpl>().unwrap();
    assert_eq!(real.name(), "real");

    let mut context = ModuleBuilder::<MyModule>::with_submodules(()).into_context();
    let stored = context.store_built::<dyn Logger>(&key, Ok(Box::new(FakeLogger))).unwrap();
    assert_eq!(stored.name(), "fake");
    let again = context.build_component::<LoggerImpl>().unwrap();
    assert!(Arc::ptr_eq(&stored, &again));
}
