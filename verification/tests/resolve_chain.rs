use shaku::{ResolveChain, ResolveStep};
use shaku::Error;
use std::any::TypeId;

fn step<C: 'static, I: ?Sized + 'static>() -> ResolveStep {
    ResolveStep {
        component_type_id: TypeId::of::<C>(),
        interface_type_id: TypeId::of::<I>(),
    }
}

#[test]
fn entering_a_step_twice_is_circular() {
    let mut chain = ResolveChain::new();
    chain.enter(step::<u8, str>());
    chain.enter(step::<u16, str>());
    assert_eq!(chain.len(), 2);
    let expected_chain = format!(
        "[{:?}, {:?}]",
        TypeId::of::<u8>(),
        TypeId::of::<u16>()
    );
    assert_eq!(chain.text(), expected_chain);
    assert!(chain.contains(&step::<u8, str>()));
    match chain.circular_error(&step::<u8, str>()) {
        Error::ResolveError(msg) => assert_eq!(
            msg,
            format!(
                "Circular dependency detected while resolving {:?}. Resolution chain: {}",
                TypeId::of::<str>(),
                expected_chain
            )
        ),
        other => panic!("expected a circular dependency, got {:?}", other),
    }
    assert_eq!(chain.len(), 2);
    assert!(chain.contains(&step::<u16, str>()));
    assert!(!chain.contains(&step::<u32, str>()));
    match chain.circular_error(&step::<u16, str>()) {
        Error::ResolveError(msg) => assert!(msg.ends_with(&expected_chain)),
        other => panic!("unexpected error {:?}", other),
    }
    chain.enter(step::<u32, str>());
    assert_eq!(chain.len(), 3);
}

#[test]
fn empty_chain_renders_as_brackets() {
    let chain = ResolveChain::new();
    assert_eq!(chain.text(), "[]");
    let copy = chain.snapshot();
    assert_eq!(copy.len(), 0);
}
