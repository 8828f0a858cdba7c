//! What holds of the library across its operations.
use crate::build_context::{build_outcome, resolution, ModuleBuildContext, Resolution};
use crate::component_index::IndexKey;
use crate::error::Error;
use crate::container::{provided, ContainerBuilder};
use crate::map_container::{registration_with, registry_outcome, Container, RegisteredType};
use crate::module::{Component, ComponentParameters, ProviderFn};
use crate::module_builder::ModuleBuilder;
use crate::type_key::type_id_of;
use crate::type_map::{type_map_value, TypeMap};
use crate::module::Module;
use crate::parameter::{stored_as, took_out, ParameterMap};
use crate::resolve_chain::circular_message;
use std::any::TypeId;
use std::sync::Arc;
use vstd::prelude::*;

verus! {

/// A component is built at most once per module: once resolving it has
/// succeeded, resolving it again (under the same types) hands out the
/// resolved instance.
pub proof fn law_component_built_once<M: Module, I: ?Sized>(
    before: ModuleBuildContext<M>,
    after: ModuleBuildContext<M>,
    r: Result<Arc<I>, Error>,
    instance: TypeId,
    function: TypeId,
    step: (TypeId, TypeId),
)
    requires
        build_outcome(before, after, r, instance, function, step),
        r is Ok,
    ensures
        resolution(
            after.resolved_keys(),
            after.component_fn_keys(),
            after.chain(),
            instance,
            function,
            step,
        ) == Resolution::Reuse,
{
}

/// An overriding (or already resolved) instance is always what resolving a
/// component hands out: neither an override function nor the implementation
/// is used, and circularity does not arise.
pub proof fn law_instance_takes_precedence(
    resolved: Set<TypeId>,
    component_fns: Set<TypeId>,
    chain: Seq<(TypeId, TypeId)>,
    instance: TypeId,
    function: TypeId,
    step: (TypeId, TypeId),
)
    requires
        resolved.contains(instance),
    ensures
        resolution(resolved, component_fns, chain, instance, function, step) == Resolution::Reuse,
{
}

/// An override function takes precedence over the component's
/// implementation.
pub proof fn law_function_before_implementation(
    resolved: Set<TypeId>,
    component_fns: Set<TypeId>,
    chain: Seq<(TypeId, TypeId)>,
    instance: TypeId,
    function: TypeId,
    step: (TypeId, TypeId),
)
    requires
        !resolved.contains(instance),
        !chain.contains(step),
        component_fns.contains(function),
    ensures
        resolution(resolved, component_fns, chain, instance, function, step)
            == Resolution::OverrideFn,
{
}

/// Resolving a component that is not resolved yet while it is already being
/// resolved further out is refused as a circular dependency, naming the
/// interface and the chain, and changes nothing.
pub proof fn law_circular_dependency_refused<M: Module, I: ?Sized>(
    before: ModuleBuildContext<M>,
    after: ModuleBuildContext<M>,
    r: Result<Arc<I>, Error>,
    instance: TypeId,
    function: TypeId,
    step: (TypeId, TypeId),
)
    requires
        build_outcome(before, after, r, instance, function, step),
        !before.resolved_keys().contains(instance),
        before.chain().contains(step),
    ensures
        after == before,
        r matches Err(Error::ResolveError(msg)) && msg@ == circular_message(step, before.chain()),
{
}

/// Whatever happens while a component is resolved, the chain of components
/// being resolved is the same afterwards.
pub proof fn law_chain_restored<M: Module, I: ?Sized>(
    before: ModuleBuildContext<M>,
    after: ModuleBuildContext<M>,
    r: Result<Arc<I>, Error>,
    instance: TypeId,
    function: TypeId,
    step: (TypeId, TypeId),
)
    requires
        build_outcome(before, after, r, instance, function, step),
    ensures
        after.chain() == before.chain(),
{
}

/// Entering a step that is not being resolved keeps the steps of the chain
/// distinct.
pub proof fn law_chain_steps_distinct(chain: Seq<(TypeId, TypeId)>, step: (TypeId, TypeId))
    requires
        chain.no_duplicates(),
        !chain.contains(step),
    ensures
        chain.push(step).no_duplicates(),
{
    assert forall|i: int, j: int|
        0 <= i < chain.push(step).len() && 0 <= j < chain.push(step).len() && i != j implies chain.push(
        step,
    )[i] != chain.push(step)[j] by {
        if i == chain.len() {
            assert(chain[j] == chain.push(step)[j]);
        } else if j == chain.len() {
            assert(chain[i] == chain.push(step)[i]);
        }
    }
}

/// A registered component is built at most once: once resolving it has
/// succeeded, resolving it again hands out the resolved instance.
pub proof fn law_registered_component_built_once<X>(
    before: Container,
    after: Container,
    r: Result<X, Error>,
    instance: TypeId,
    registration: TypeId,
    interface: TypeId,
    again: Container,
    r_again: Result<X, Error>,
)
    requires
        registry_outcome(before, after, r, instance, registration, interface),
        r is Ok,
        registry_outcome(after, again, r_again, instance, registration, interface),
    ensures
        r_again is Ok,
        again == after,
{
}

/// A parameter stored by name is taken out again by name with its type,
/// and taking it out undoes storing it (if nothing was stored under that
/// name before).
pub proof fn law_named_parameter_round_trip(
    m: Map<IndexKey, TypeId>,
    name: Seq<char>,
    t: TypeId,
    after: Map<IndexKey, TypeId>,
    taken: bool,
)
    requires
        took_out(m.insert(IndexKey::Name(name), t), after, IndexKey::Name(name), t, taken),
    ensures
        taken,
        !m.contains_key(IndexKey::Name(name)) ==> after == m,
{
    if !m.contains_key(IndexKey::Name(name)) {
        assert(m.insert(IndexKey::Name(name), t).remove(IndexKey::Name(name)) =~= m);
    }
}

/// A parameter stored by type is taken out again by type, and taking it
/// out undoes storing it (if nothing was stored under that type before).
pub proof fn law_typed_parameter_round_trip(
    m: Map<IndexKey, TypeId>,
    t: TypeId,
    after: Map<IndexKey, TypeId>,
    taken: bool,
)
    requires
        took_out(m.insert(IndexKey::Type(t), t), after, IndexKey::Type(t), t, taken),
    ensures
        taken,
        !m.contains_key(IndexKey::Type(t)) ==> after == m,
{
    if !m.contains_key(IndexKey::Type(t)) {
        assert(m.insert(IndexKey::Type(t), t).remove(IndexKey::Type(t)) =~= m);
    }
}

/// A parameter stored by name is not handed out as another type, and the
/// map is left as it is.
pub proof fn law_named_parameter_keeps_its_type(
    m: Map<IndexKey, TypeId>,
    name: Seq<char>,
    t: TypeId,
    u: TypeId,
    after: Map<IndexKey, TypeId>,
    taken: bool,
)
    requires
        t != u,
        took_out(m.insert(IndexKey::Name(name), t), after, IndexKey::Name(name), u, taken),
    ensures
        !taken,
        after == m.insert(IndexKey::Name(name), t),
{
}

/// Storing under a name twice keeps only the second parameter, whatever the
/// types.
pub proof fn law_named_parameter_overwritten(
    m: Map<IndexKey, TypeId>,
    name: Seq<char>,
    t: TypeId,
    u: TypeId,
)
    ensures
        m.insert(IndexKey::Name(name), t).insert(IndexKey::Name(name), u) == m.insert(
            IndexKey::Name(name),
            u,
        ),
        stored_as(
            m.insert(IndexKey::Name(name), t).insert(IndexKey::Name(name), u),
            IndexKey::Name(name),
            u,
        ),
        t != u ==> !stored_as(
            m.insert(IndexKey::Name(name), t).insert(IndexKey::Name(name), u),
            IndexKey::Name(name),
            t,
        ),
{
    assert(m.insert(IndexKey::Name(name), t).insert(IndexKey::Name(name), u) =~= m.insert(
        IndexKey::Name(name),
        u,
    ));
}

/// Parameters stored by name and parameters stored by type never meet:
/// storing by name does not change what is stored under any type.
pub proof fn law_names_and_types_apart(
    m: Map<IndexKey, TypeId>,
    name: Seq<char>,
    t: TypeId,
    u: TypeId,
)
    ensures
        m.insert(IndexKey::Name(name), t).contains_key(IndexKey::Type(u)) == m.contains_key(
            IndexKey::Type(u),
        ),
        m.insert(IndexKey::Name(name), t).contains_key(IndexKey::Type(u)) ==> m.insert(
            IndexKey::Name(name),
            t,
        )[IndexKey::Type(u)] == m[IndexKey::Type(u)],
{
}

/// Nothing can be taken out from under a key where nothing is stored, and
/// trying changes nothing.
pub proof fn law_missing_parameter(
    m: Map<IndexKey, TypeId>,
    k: IndexKey,
    t: TypeId,
    after: Map<IndexKey, TypeId>,
    taken: bool,
)
    requires
        !m.contains_key(k),
        took_out(m, after, k, t, taken),
    ensures
        !taken,
        after == m,
{
}

/// Named parameters added one after the other to a registered component
/// accumulate: after adding `va` under `a` then `vb` under `b` (two
/// different names), the registration holds both values, each under its
/// name with the type of its value, and every other parameter it held
/// before.
pub proof fn law_named_parameters_accumulate<I: ?Sized + 'static, V: 'static, W: 'static>(
    c0: Container,
    c1: Container,
    c2: Container,
    a: Seq<char>,
    va: V,
    b: Seq<char>,
    vb: W,
)
    requires
        a != b,
        type_map_value::<RegisteredType<I>>(c0.registered_map()) is Some,
        type_map_value::<RegisteredType<I>>(c0.registered_map()) matches Some(before) ==> (
        type_map_value::<RegisteredType<I>>(c1.registered_map()) matches Some(after)
            && registration_with(
            before,
            after,
            before.parameters@.insert(IndexKey::Name(a), type_id_of::<V>()),
            IndexKey::Name(a),
        ) && after.parameters.value_at::<V>(IndexKey::Name(a)) == Some(va)),
        type_map_value::<RegisteredType<I>>(c1.registered_map()) matches Some(before) ==> (
        type_map_value::<RegisteredType<I>>(c2.registered_map()) matches Some(after)
            && registration_with(
            before,
            after,
            before.parameters@.insert(IndexKey::Name(b), type_id_of::<W>()),
            IndexKey::Name(b),
        ) && after.parameters.value_at::<W>(IndexKey::Name(b)) == Some(vb)),
    ensures
        type_map_value::<RegisteredType<I>>(c2.registered_map()) matches Some(last) && {
            let first = type_map_value::<RegisteredType<I>>(c0.registered_map())->Some_0;
            &&& last.parameters.value_at::<V>(IndexKey::Name(a)) == Some(va)
            &&& last.parameters.value_at::<W>(IndexKey::Name(b)) == Some(vb)
            &&& last.parameters@[IndexKey::Name(a)] == type_id_of::<V>()
            &&& last.parameters@[IndexKey::Name(b)] == type_id_of::<W>()
            &&& forall|k: IndexKey|
                k != IndexKey::Name(a) && k != IndexKey::Name(b) ==> (
                #[trigger] last.parameters.parameters().contains_key(k)
                    == first.parameters.parameters().contains_key(k) && last.parameters.parameters()[k]
                    == first.parameters.parameters()[k])
        },
{
}

/// A value stored under a name is what taking it out under that name and
/// its type gives back.
pub proof fn law_named_parameter_value_round_trip<V: 'static>(
    m0: ParameterMap,
    m1: ParameterMap,
    name: Seq<char>,
    v: V,
    r: Option<V>,
)
    requires
        m1@ == m0@.insert(IndexKey::Name(name), type_id_of::<V>()),
        m1.value_at::<V>(IndexKey::Name(name)) == Some(v),
        stored_as(m1@, IndexKey::Name(name), type_id_of::<V>()) ==> r == m1.value_at::<V>(
            IndexKey::Name(name),
        ),
    ensures
        r == Some(v),
{
}

/// The parameters set for a component on a module builder are exactly what
/// its build receives: the builder keeps them under the component's key,
/// building hands that store to the context, and resolving the component
/// by its implementation passes the stored value to `build`.
pub proof fn law_parameters_reach_the_build<M: Module, C: Component<M>>(
    builder: ModuleBuilder<M>,
    params: C::Parameters,
    context: ModuleBuildContext<M>,
    handed: C::Parameters,
)
    requires
        type_map_value::<ComponentParameters<C, C::Parameters>>(builder.parameter_map()) matches Some(
            p,
        ) && p.value == params,
        context.parameter_map() == builder.parameter_map(),
        type_map_value::<ComponentParameters<C, C::Parameters>>(context.parameter_map()) matches Some(
            p,
        ) ==> handed == p.value,
    ensures
        handed == params,
{
}

/// A container built from a builder whose provider for `I` was overridden
/// with `f` provides through `f`: what it hands out is what `f` gives for
/// its module, with a failure as a `ResolveError`.
pub proof fn law_container_provides_through_its_override<M: Module, I: ?Sized + 'static>(
    builder: ContainerBuilder<M>,
    f: ProviderFn<M, I>,
    overrides: TypeMap,
    module: M,
    r: Result<Box<I>, Error>,
)
    requires
        type_map_value::<ProviderFn<M, I>>(builder.provider_override_map()) == Some(f),
        overrides == builder.provider_override_map(),
        exists|provider_fn: ProviderFn<M, I>, given: Result<Box<I>, Error>|
            {
                &&& type_map_value::<ProviderFn<M, I>>(overrides) == Some(provider_fn)
                &&& #[trigger] provider_fn.may_give(module, given)
                &&& provided(given, r)
            },
    ensures
        exists|given: Result<Box<I>, Error>| #[trigger] f.may_give(module, given) && provided(given, r),
{
}

/// A module built from a builder whose component `I` was overridden with an
/// instance resolves `I` to that instance: the override is what the build
/// context holds as resolved, and resolving an already resolved component
/// hands out what is held.
pub proof fn law_module_resolves_its_override<M: Module, I: ?Sized + 'static>(
    builder: ModuleBuilder<M>,
    component: Box<I>,
    context: ModuleBuildContext<M>,
    r: Result<Arc<I>, Error>,
)
    requires
        type_map_value::<Arc<I>>(builder.component_override_map()) matches Some(a) && &*a
            == &*component,
        context.resolved_map() == builder.component_override_map(),
        r matches Ok(x) && type_map_value::<Arc<I>>(context.resolved_map()) == Some(x),
    ensures
        r matches Ok(x) && &*x == &*component,
{
}

} // verus!
