//! Parameters handed to components when they are built: stored by property
//! name or by type, and taken out again with the type they were stored as.
use crate::component_index::{ComponentIndex, IndexKey};
use crate::type_key::{type_id_eq, type_id_of, TypeKey};
use crate::type_map::{type_map_keys, type_map_value, TypeMap};
use std::any::TypeId;
use vstd::prelude::*;

verus! {

/// One stored parameter: the property name, the identity of the value's
/// type, and the value, held as the only entry of a type-keyed map.
#[derive(Debug)]
pub struct Parameter {
    pub(crate) name: String,
    pub(crate) type_id: TypeId,
    pub(crate) value: TypeMap,
}

impl Parameter {
    /// The identity recorded as the type of the value.
    pub closed spec fn recorded_type(&self) -> TypeId {
        self.type_id
    }

    /// The property name.
    pub closed spec fn property_name(&self) -> Seq<char> {
        self.name@
    }

    /// The identities of the types of the held values.
    pub closed spec fn held_types(&self) -> Set<TypeId> {
        type_map_keys(self.value)
    }

    /// The held value, as a `V`: the value itself when it is one.
    pub closed spec fn held<V>(&self) -> Option<V> {
        type_map_value::<V>(self.value)
    }

    /// One value is held, of the recorded type.
    pub open spec fn wf(&self) -> bool {
        self.held_types() == Set::<TypeId>::empty().insert(self.recorded_type())
    }

    /// Makes a parameter named `name` holding `value`, where `key` names
    /// `V`: the type recorded is the one `key` holds.
    pub fn new_as<V: 'static>(name: &str, value: V, key: &TypeKey<V>) -> (r: Parameter)
        ensures
            r.property_name() == name@,
            r.recorded_type() == key@,
            r.held::<V>() == Some(value),
            r.wf(),
    {
        let mut held = TypeMap::new();
        held.insert(key, value);
        Parameter { name: String::from_str(name), type_id: key.type_id(), value: held }
    }

    /// Makes a parameter named `name` holding `value`.
    pub fn new<V: 'static>(name: &str, value: V) -> (r: Parameter)
        ensures
            r.property_name() == name@,
            r.recorded_type() == type_id_of::<V>(),
            r.held::<V>() == Some(value),
            r.wf(),
    {
        let key = TypeKey::<V>::of();
        Parameter::new_as(name, value, &key)
    }

    /// Takes the value out as a `V`, where `key` names `V`: `Some` exactly
    /// when the value is of that type.
    pub fn get_value_as<V: 'static>(self, key: &TypeKey<V>) -> (r: Option<V>)
        ensures
            r is Some <==> self.held_types().contains(key@),
            r == self.held::<V>(),
    {
        let mut held = self.value;
        held.remove(key)
    }

    /// Takes the value out as a `V`, if it is one.
    pub fn get_value<V: 'static>(self) -> (r: Option<V>)
        ensures
            r is Some <==> self.held_types().contains(type_id_of::<V>()),
            r == self.held::<V>(),
    {
        let key = TypeKey::<V>::of();
        self.get_value_as(&key)
    }
}

/// The stored entries, each under its index.
type Entries = Seq<(ComponentIndex, Parameter)>;

/// No index occurs twice.
spec fn keys_unique(s: Entries) -> bool {
    forall|i: int, j: int| 0 <= i < j < s.len() ==> s[i].0@ != s[j].0@
}

/// Whether some entry is stored under `k`.
spec fn has_key(s: Entries, k: IndexKey) -> bool {
    exists|i: int| 0 <= i < s.len() && s[i].0@ == k
}

/// The map from each index to the type of the parameter stored under it.
spec fn types_of(s: Entries) -> Map<IndexKey, TypeId> {
    Map::new(
        |k: IndexKey| has_key(s, k),
        |k: IndexKey| s[choose|i: int| 0 <= i < s.len() && s[i].0@ == k].1.type_id,
    )
}

/// The map from each index to the parameter stored under it.
spec fn params_of(s: Entries) -> Map<IndexKey, Parameter> {
    Map::new(
        |k: IndexKey| has_key(s, k),
        |k: IndexKey| s[choose|i: int| 0 <= i < s.len() && s[i].0@ == k].1,
    )
}

proof fn lemma_types_at(s: Entries, i: int)
    requires
        keys_unique(s),
        0 <= i < s.len(),
    ensures
        types_of(s).contains_key(s[i].0@),
        types_of(s)[s[i].0@] == s[i].1.type_id,
        params_of(s).contains_key(s[i].0@),
        params_of(s)[s[i].0@] == s[i].1,
{
    let k = s[i].0@;
    assert(has_key(s, k));
    let j = choose|j: int| 0 <= j < s.len() && s[j].0@ == k;
    if j != i {
        if j < i {
            assert(s[j].0@ != s[i].0@);
        } else {
            assert(s[i].0@ != s[j].0@);
        }
    }
}

proof fn lemma_types_update(s: Entries, i: int, e: (ComponentIndex, Parameter))
    requires
        keys_unique(s),
        0 <= i < s.len(),
        s[i].0@ == e.0@,
    ensures
        keys_unique(s.update(i, e)),
        types_of(s.update(i, e)) =~= types_of(s).insert(e.0@, e.1.type_id),
        params_of(s.update(i, e)) =~= params_of(s).insert(e.0@, e.1),
{
    let t = s.update(i, e);
    assert forall|a: int, b: int| 0 <= a < b < t.len() implies t[a].0@ != t[b].0@ by {
        assert(s[a].0@ != s[b].0@);
    }
    assert forall|k: IndexKey| has_key(t, k) <==> (has_key(s, k) || k == e.0@) by {
        if has_key(s, k) {
            let j = choose|j: int| 0 <= j < s.len() && s[j].0@ == k;
            assert(t[j].0@ == k);
        }
        if has_key(t, k) {
            let j = choose|j: int| 0 <= j < t.len() && t[j].0@ == k;
            if j != i {
                assert(s[j].0@ == k);
            }
        }
        if k == e.0@ {
            assert(t[i].0@ == k);
        }
    }
    assert forall|k: IndexKey| #[trigger] types_of(t).contains_key(k) implies types_of(t)[k]
        == types_of(s).insert(e.0@, e.1.type_id)[k] && params_of(t)[k] == params_of(s).insert(
        e.0@,
        e.1,
    )[k] by {
        let j = choose|j: int| 0 <= j < t.len() && t[j].0@ == k;
        lemma_types_at(t, j);
        if j != i {
            lemma_types_at(s, j);
        }
    }
}

proof fn lemma_types_push(s: Entries, e: (ComponentIndex, Parameter))
    requires
        keys_unique(s),
        !has_key(s, e.0@),
    ensures
        keys_unique(s.push(e)),
        types_of(s.push(e)) =~= types_of(s).insert(e.0@, e.1.type_id),
        params_of(s.push(e)) =~= params_of(s).insert(e.0@, e.1),
{
    let t = s.push(e);
    assert forall|a: int, b: int| 0 <= a < b < t.len() implies t[a].0@ != t[b].0@ by {
        if b == s.len() {
            assert(s[a].0@ == t[a].0@);
        } else {
            assert(s[a].0@ != s[b].0@);
        }
    }
    assert forall|k: IndexKey| has_key(t, k) <==> (has_key(s, k) || k == e.0@) by {
        if has_key(s, k) {
            let j = choose|j: int| 0 <= j < s.len() && s[j].0@ == k;
            assert(t[j].0@ == k);
        }
        if has_key(t, k) {
            let j = choose|j: int| 0 <= j < t.len() && t[j].0@ == k;
            if j != s.len() {
                assert(s[j].0@ == k);
            }
        }
        if k == e.0@ {
            assert(t[s.len() as int].0@ == k);
        }
    }
    assert forall|k: IndexKey| #[trigger] types_of(t).contains_key(k) implies types_of(t)[k]
        == types_of(s).insert(e.0@, e.1.type_id)[k] && params_of(t)[k] == params_of(s).insert(
        e.0@,
        e.1,
    )[k] by {
        let j = choose|j: int| 0 <= j < t.len() && t[j].0@ == k;
        lemma_types_at(t, j);
        if j != s.len() {
            lemma_types_at(s, j);
        }
    }
}

proof fn lemma_types_remove(s: Entries, i: int)
    requires
        keys_unique(s),
        0 <= i < s.len(),
    ensures
        keys_unique(s.remove(i)),
        types_of(s.remove(i)) =~= types_of(s).remove(s[i].0@),
        params_of(s.remove(i)) =~= params_of(s).remove(s[i].0@),
{
    let t = s.remove(i);
    let gone = s[i].0@;
    assert forall|a: int, b: int| 0 <= a < b < t.len() implies t[a].0@ != t[b].0@ by {
        let sa = if a < i { a } else { a + 1 };
        let sb = if b < i { b } else { b + 1 };
        assert(t[a] == s[sa]);
        assert(t[b] == s[sb]);
        assert(s[sa].0@ != s[sb].0@);
    }
    assert forall|k: IndexKey| has_key(t, k) <==> (has_key(s, k) && k != gone) by {
        if has_key(s, k) && k != gone {
            let j = choose|j: int| 0 <= j < s.len() && s[j].0@ == k;
            if j < i {
                assert(t[j].0@ == k);
            } else {
                assert(j != i);
                assert(t[j - 1].0@ == k);
            }
        }
        if has_key(t, k) {
            let j = choose|j: int| 0 <= j < t.len() && t[j].0@ == k;
            let sj = if j < i { j } else { j + 1 };
            assert(t[j] == s[sj]);
            if j < i {
                assert(s[j].0@ != s[i].0@);
            } else {
                assert(s[i].0@ != s[j + 1].0@);
            }
        }
    }
    assert forall|k: IndexKey| #[trigger] types_of(t).contains_key(k) implies types_of(t)[k]
        == types_of(s).remove(gone)[k] && params_of(t)[k] == params_of(s).remove(gone)[k] by {
        let j = choose|j: int| 0 <= j < t.len() && t[j].0@ == k;
        lemma_types_at(t, j);
        let sj = if j < i { j } else { j + 1 };
        assert(t[j] == s[sj]);
        lemma_types_at(s, sj);
    }
}

/// Stores the parameters of a component, each under a property name or
/// under the identity of its type. The parameters are later taken out while
/// the component is built.
#[derive(Debug)]
pub struct ParameterMap {
    entries: Vec<(ComponentIndex, Parameter)>,
}

/// A parameter stored under a type is of that type.
spec fn typed_entries_agree(s: Entries) -> bool {
    forall|i: int|
        0 <= i < s.len() ==> (#[trigger] s[i].0@ matches IndexKey::Type(t) ==> s[i].1.type_id == t)
}

/// Every parameter records the type of the value it holds.
spec fn parameters_wf(s: Entries) -> bool {
    forall|i: int| 0 <= i < s.len() ==> (#[trigger] s[i].1).wf()
}

impl View for ParameterMap {
    type V = Map<IndexKey, TypeId>;

    closed spec fn view(&self) -> Map<IndexKey, TypeId> {
        types_of(self.entries@)
    }
}

/// Whether taking a parameter of type `t` out from under `k` succeeds: one
/// is stored there, and it is of that type.
pub open spec fn stored_as(m: Map<IndexKey, TypeId>, k: IndexKey, t: TypeId) -> bool {
    m.contains_key(k) && m[k] == t
}

/// The outcome of taking a parameter of type `t` out from under `k`: it is
/// taken exactly when one of that type is stored there, and then only that
/// entry leaves; otherwise nothing changes.
pub open spec fn took_out(
    before: Map<IndexKey, TypeId>,
    after: Map<IndexKey, TypeId>,
    k: IndexKey,
    t: TypeId,
    taken: bool,
) -> bool {
    &&& (taken <==> stored_as(before, k, t))
    &&& (taken ==> after == before.remove(k))
    &&& (!taken ==> after == before)
}

impl ParameterMap {
    /// The stored parameters, each under its index.
    pub closed spec fn parameters(&self) -> Map<IndexKey, Parameter> {
        params_of(self.entries@)
    }

    /// The value stored under `k`, as a `V`: the value itself when it is
    /// one.
    pub open spec fn value_at<V>(&self, k: IndexKey) -> Option<V> {
        if self.parameters().contains_key(k) {
            self.parameters()[k].held::<V>()
        } else {
            None
        }
    }

    #[verifier::type_invariant]
    closed spec fn inv(self) -> bool {
        &&& keys_unique(self.entries@)
        &&& typed_entries_agree(self.entries@)
        &&& parameters_wf(self.entries@)
    }

    /// An empty map.
    pub fn new() -> (r: ParameterMap)
        ensures
            r@ == Map::<IndexKey, TypeId>::empty(),
            r.parameters() == Map::<IndexKey, Parameter>::empty(),
    {
        let r = ParameterMap { entries: Vec::new() };
        assert(r@ =~= Map::<IndexKey, TypeId>::empty());
        assert(r.parameters() =~= Map::<IndexKey, Parameter>::empty());
        r
    }

    fn find(&self, key: &ComponentIndex) -> (r: Option<usize>)
        ensures
            match r {
                Some(i) => i < self.entries@.len() && self.entries@[i as int].0@ == key@,
                None => !has_key(self.entries@, key@),
            },
    {
        let mut i: usize = 0;
        while i < self.entries.len()
            invariant
                i <= self.entries@.len(),
                forall|j: int| 0 <= j < i ==> self.entries@[j].0@ != key@,
            decreases self.entries@.len() - i,
        {
            if self.entries[i].0.same_key(key) {
                return Some(i);
            }
            i = i + 1;
        }
        None
    }

    /// Stores `param` under `key`, replacing what was stored there, and
    /// hands back the replaced parameter.
    fn put(&mut self, key: ComponentIndex, param: Parameter) -> (r: Option<Parameter>)
        requires
            param.wf(),
            key@ matches IndexKey::Type(t) ==> param.type_id == t,
        ensures
            final(self)@ == old(self)@.insert(key@, param.type_id),
            r is Some <==> old(self)@.contains_key(key@),
            r matches Some(p) ==> p.type_id == old(self)@[key@] && p.wf(),
            final(self).parameters() == old(self).parameters().insert(key@, param),
            r matches Some(p) ==> p == old(self).parameters()[key@],
    {
        proof {
            use_type_invariant(&*self);
        }
        let ghost s = self.entries@;
        let found = self.find(&key);
        let mut entries = Vec::new();
        std::mem::swap(&mut entries, &mut self.entries);
        let r = match found {
            Some(i) => {
                let old_entry = entries.remove(i);
                proof {
                    lemma_types_at(s, i as int);
                    lemma_types_update(s, i as int, (key, param));
                    assert(s.remove(i as int).insert(i as int, (key, param)) =~= s.update(
                        i as int,
                        (key, param),
                    ));
                }
                entries.insert(i, (key, param));
                Some(old_entry.1)
            },
            None => {
                proof {
                    lemma_types_push(s, (key, param));
                }
                entries.push((key, param));
                None
            },
        };
        proof {
            assert forall|j: int| 0 <= j < entries@.len() implies (#[trigger] entries@[j]).1.wf()
                && (entries@[j].0@ matches IndexKey::Type(t) ==> entries@[j].1.type_id == t) by {
                if j < s.len() && entries@[j] == s[j] {
                }
            }
        }
        self.entries = entries;
        r
    }

    /// Takes out the parameter stored under `key`, if it records the type
    /// `t`; otherwise leaves the map as it is.
    fn take(&mut self, key: &ComponentIndex, t: &TypeId) -> (r: Option<Parameter>)
        ensures
            stored_as(old(self)@, key@, *t) ==> final(self)@ == old(self)@.remove(key@),
            !stored_as(old(self)@, key@, *t) ==> final(self)@ == old(self)@,
            r is Some <==> stored_as(old(self)@, key@, *t),
            r matches Some(p) ==> p.type_id == *t && p.wf(),
            stored_as(old(self)@, key@, *t) ==> final(self).parameters() == old(self).parameters().remove(
                key@,
            ),
            !stored_as(old(self)@, key@, *t) ==> final(self).parameters() == old(self).parameters(),
            r matches Some(p) ==> p == old(self).parameters()[key@],
    {
        proof {
            use_type_invariant(&*self);
        }
        let ghost s = self.entries@;
        match self.find(key) {
            Some(i) => {
                proof {
                    lemma_types_at(s, i as int);
                }
                if type_id_eq(&self.entries[i].1.type_id, t) {
                    proof {
                        lemma_types_remove(s, i as int);
                    }
                    let mut entries = Vec::new();
                    std::mem::swap(&mut entries, &mut self.entries);
                    let e = entries.remove(i);
                    proof {
                        assert forall|j: int| 0 <= j < entries@.len() implies (#[trigger] entries@[j]).1.wf()
                            && (entries@[j].0@ matches IndexKey::Type(t) ==> entries@[j].1.type_id == t) by {
                            let sj = if j < i { j } else { j + 1 };
                            assert(entries@[j] == s[sj]);
                        }
                    }
                    self.entries = entries;
                    Some(e.1)
                } else {
                    None
                }
            },
            None => None,
        }
    }

    /// Stores `value` under the property name `key`, where `type_key` names
    /// `V`. Whatever was stored under that name is replaced, whatever its
    /// type; it is handed back if it was a `V`.
    pub fn insert_with_name_as<V: 'static>(&mut self, key: &str, value: V, type_key: &TypeKey<V>) -> (r: Option<V>)
        ensures
            final(self)@ == old(self)@.insert(IndexKey::Name(key@), type_key@),
            r is Some <==> stored_as(old(self)@, IndexKey::Name(key@), type_key@),
            final(self).value_at::<V>(IndexKey::Name(key@)) == Some(value),
            r == old(self).value_at::<V>(IndexKey::Name(key@)),
            forall|k: IndexKey|
                k != IndexKey::Name(key@) ==> #[trigger] final(self).parameters().contains_key(k)
                    == old(self).parameters().contains_key(k) && final(self).parameters()[k] == old(
                    self,
                ).parameters()[k],
    {
        let param = Parameter::new_as(key, value, type_key);
        match self.put(ComponentIndex::named(key), param) {
            Some(p) => p.get_value_as(type_key),
            None => None,
        }
    }

    /// Stores `value` under its own type, where `type_key` names `V`. A
    /// value stored before under that type is replaced and handed back.
    pub fn insert_with_type_as<V: 'static>(&mut self, value: V, type_key: &TypeKey<V>) -> (r: Option<V>)
        ensures
            final(self)@ == old(self)@.insert(IndexKey::Type(type_key@), type_key@),
            r is Some <==> old(self)@.contains_key(IndexKey::Type(type_key@)),
            final(self).value_at::<V>(IndexKey::Type(type_key@)) == Some(value),
            r == old(self).value_at::<V>(IndexKey::Type(type_key@)),
            forall|k: IndexKey|
                k != IndexKey::Type(type_key@) ==> #[trigger] final(self).parameters().contains_key(k)
                    == old(self).parameters().contains_key(k) && final(self).parameters()[k] == old(
                    self,
                ).parameters()[k],
    {
        let t = type_key.type_id();
        let param = Parameter::new_as("(dummy name)", value, type_key);
        proof {
            use_type_invariant(&*self);
            let s = self.entries@;
            if has_key(s, IndexKey::Type(t)) {
                let j = choose|j: int| 0 <= j < s.len() && s[j].0@ == IndexKey::Type(t);
                lemma_types_at(s, j);
            }
        }
        match self.put(ComponentIndex::Id(t), param) {
            Some(p) => p.get_value_as(type_key),
            None => None,
        }
    }

    /// Takes out the parameter stored under the property name `key` as a
    /// `V`, where `type_key` names `V`. If nothing is stored under that
    /// name, or what is stored is not a `V`, the map is left as it is.
    pub fn remove_with_name_as<V: 'static>(&mut self, key: &str, type_key: &TypeKey<V>) -> (r: Option<V>)
        ensures
            r is Some <==> stored_as(old(self)@, IndexKey::Name(key@), type_key@),
            r is Some ==> final(self)@ == old(self)@.remove(IndexKey::Name(key@)),
            r is None ==> final(self)@ == old(self)@,
            stored_as(old(self)@, IndexKey::Name(key@), type_key@) ==> r == old(self).value_at::<V>(
                IndexKey::Name(key@),
            ) && final(self).parameters() == old(self).parameters().remove(IndexKey::Name(key@)),
            r is None ==> final(self).parameters() == old(self).parameters(),
    {
        let t = type_key.type_id();
        match self.take(&ComponentIndex::named(key), &t) {
            Some(p) => p.get_value_as(type_key),
            None => None,
        }
    }

    /// Takes out the parameter stored under the type that `type_key` names.
    /// If there is none, the map is left as it is.
    pub fn remove_with_type_as<V: 'static>(&mut self, type_key: &TypeKey<V>) -> (r: Option<V>)
        ensures
            r is Some <==> old(self)@.contains_key(IndexKey::Type(type_key@)),
            r is Some ==> old(self)@[IndexKey::Type(type_key@)] == type_key@,
            r is Some ==> final(self)@ == old(self)@.remove(IndexKey::Type(type_key@)),
            r is None ==> final(self)@ == old(self)@,
            r == old(self).value_at::<V>(IndexKey::Type(type_key@)),
            r is Some ==> final(self).parameters() == old(self).parameters().remove(
                IndexKey::Type(type_key@),
            ),
            r is None ==> final(self).parameters() == old(self).parameters(),
    {
        let t = type_key.type_id();
        proof {
            use_type_invariant(&*self);
            let s = self.entries@;
            if has_key(s, IndexKey::Type(t)) {
                let j = choose|j: int| 0 <= j < s.len() && s[j].0@ == IndexKey::Type(t);
                lemma_types_at(s, j);
            }
        }
        match self.take(&ComponentIndex::Id(t), &t) {
            Some(p) => p.get_value_as(type_key),
            None => None,
        }
    }

    /// Stores `value` under the property name `key`. Whatever was stored
    /// under that name is replaced, whatever its type; it is handed back if
    /// it was of the same type as `value`.
    pub fn insert_with_name<V: 'static>(&mut self, key: &str, value: V) -> (r: Option<V>)
        ensures
            final(self)@ == old(self)@.insert(IndexKey::Name(key@), type_id_of::<V>()),
            r is Some <==> stored_as(old(self)@, IndexKey::Name(key@), type_id_of::<V>()),
            final(self).value_at::<V>(IndexKey::Name(key@)) == Some(value),
            r == old(self).value_at::<V>(IndexKey::Name(key@)),
            forall|k: IndexKey|
                k != IndexKey::Name(key@) ==> #[trigger] final(self).parameters().contains_key(k)
                    == old(self).parameters().contains_key(k) && final(self).parameters()[k] == old(
                    self,
                ).parameters()[k],
    {
        let type_key = TypeKey::<V>::of();
        self.insert_with_name_as(key, value, &type_key)
    }

    /// Stores `value` under its own type. A value stored before under that
    /// type is replaced and handed back.
    pub fn insert_with_type<V: 'static>(&mut self, value: V) -> (r: Option<V>)
        ensures
            final(self)@ == old(self)@.insert(
                IndexKey::Type(type_id_of::<V>()),
                type_id_of::<V>(),
            ),
            r is Some <==> old(self)@.contains_key(IndexKey::Type(type_id_of::<V>())),
            final(self).value_at::<V>(IndexKey::Type(type_id_of::<V>())) == Some(value),
            r == old(self).value_at::<V>(IndexKey::Type(type_id_of::<V>())),
            forall|k: IndexKey|
                k != IndexKey::Type(type_id_of::<V>()) ==> (#[trigger] final(self).parameters().contains_key(k)
                    == old(self).parameters().contains_key(k) && final(self).parameters()[k]
                    == old(self).parameters()[k]),
    {
        let type_key = TypeKey::<V>::of();
        self.insert_with_type_as(value, &type_key)
    }

    /// Takes out the parameter stored under the property name `key`, if it
    /// is a `V`; otherwise the map is left as it is.
    pub fn remove_with_name<V: 'static>(&mut self, key: &str) -> (r: Option<V>)
        ensures
            took_out(old(self)@, final(self)@, IndexKey::Name(key@), type_id_of::<V>(), r is Some),
            stored_as(old(self)@, IndexKey::Name(key@), type_id_of::<V>()) ==> r == old(
                self,
            ).value_at::<V>(IndexKey::Name(key@)),
            r is None ==> final(self).parameters() == old(self).parameters(),
    {
        let type_key = TypeKey::<V>::of();
        self.remove_with_name_as(key, &type_key)
    }

    /// Takes out the parameter stored under the type `V`; if there is none,
    /// the map is left as it is.
    pub fn remove_with_type<V: 'static>(&mut self) -> (r: Option<V>)
        ensures
            took_out(
                old(self)@,
                final(self)@,
                IndexKey::Type(type_id_of::<V>()),
                type_id_of::<V>(),
                r is Some,
            ),
            r == old(self).value_at::<V>(IndexKey::Type(type_id_of::<V>())),
            r is None ==> final(self).parameters() == old(self).parameters(),
    {
        let type_key = TypeKey::<V>::of();
        self.remove_with_type_as(&type_key)
    }
}

} // verus!
