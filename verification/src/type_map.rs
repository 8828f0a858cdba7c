//! A map holding at most one value of each type, keyed by the type itself.
use crate::type_key::TypeKey;
use std::any::TypeId;
use vstd::prelude::*;

verus! {

/// A map from types to one value of each (`anymap::AnyMap`).
///
/// The verifier cannot see the `dyn Any` inside an `anymap::AnyMap`, so the
/// map is held in a private field of this type. Its contents are named by
/// [`type_map_keys`], the identities of the types that have a value stored,
/// and [`type_map_value`], the value stored for each type.
#[derive(Debug)]
#[verifier::external_body]
pub struct TypeMap {
    inner: anymap::AnyMap,
}

/// The identities of the types that have a value stored in the map.
pub uninterp spec fn type_map_keys(m: TypeMap) -> Set<TypeId>;

/// The value of type `T` stored in the map, if any: the map holds at most one
/// value of each type, and this is it. It is a function of the map alone;
/// the trusted items below state how it relates to what they take in and
/// hand out.
pub open spec fn type_map_value<T>(m: TypeMap) -> Option<T> {
    (choose|f: spec_fn(TypeMap) -> Option<T>| #![trigger f(m)] true)(m)
}

impl TypeMap {
    /// An empty map (`anymap::AnyMap::new`).
    ///
    /// Claimed: no type has a value stored.
    #[verifier::external_body]
    pub fn new() -> (r: TypeMap)
        ensures
            type_map_keys(r) == Set::<TypeId>::empty(),
    {
        TypeMap { inner: anymap::AnyMap::new() }
    }

    /// Whether a `T` is stored (`anymap::Map::contains::<T>`).
    ///
    /// Claimed: `true` exactly when the identity that `key` holds, which is
    /// `TypeId::of::<T>()`, is among the keys, that is, when a `T` is stored.
    #[verifier::external_body]
    pub fn contains<T: 'static>(&self, key: &TypeKey<T>) -> (r: bool)
        ensures
            r == type_map_keys(*self).contains(key@),
            r == type_map_value::<T>(*self) is Some,
    {
        self.inner.contains::<T>()
    }

    /// The stored `T`, if any (`anymap::Map::get::<T>`).
    ///
    /// Claimed: `Some` exactly when the identity that `key` holds is among
    /// the keys (anymap keys each value by `TypeId::of` of its type), and
    /// then a reference to the stored `T`.
    #[verifier::external_body]
    pub fn get<T: 'static>(&self, key: &TypeKey<T>) -> (r: Option<&T>)
        ensures
            r is Some <==> type_map_keys(*self).contains(key@),
            r is None ==> type_map_value::<T>(*self) is None,
            r matches Some(v) ==> type_map_value::<T>(*self) == Some(*v),
    {
        self.inner.get::<T>()
    }

    /// Stores `value`, replacing and handing back a stored `T`
    /// (`anymap::Map::insert::<T>`).
    ///
    /// Claimed: afterwards the identity that `key` holds is among the keys,
    /// the other keys are unchanged, the stored `T` is `value`, and the `T`
    /// stored before, if any, is handed back.
    #[verifier::external_body]
    pub fn insert<T: 'static>(&mut self, key: &TypeKey<T>, value: T) -> (r: Option<T>)
        ensures
            type_map_keys(*final(self)) == type_map_keys(*old(self)).insert(key@),
            r is Some <==> type_map_keys(*old(self)).contains(key@),
            type_map_value::<T>(*final(self)) == Some(value),
            r == type_map_value::<T>(*old(self)),
    {
        self.inner.insert::<T>(value)
    }

    /// Takes out the stored `T`, if any (`anymap::Map::remove::<T>`).
    ///
    /// Claimed: afterwards the identity that `key` holds is no longer among
    /// the keys, the other keys are unchanged, and the stored `T`, if any,
    /// is handed back; when none was stored, the map is untouched.
    #[verifier::external_body]
    pub fn remove<T: 'static>(&mut self, key: &TypeKey<T>) -> (r: Option<T>)
        ensures
            type_map_keys(*final(self)) == type_map_keys(*old(self)).remove(key@),
            r is Some <==> type_map_keys(*old(self)).contains(key@),
            r is None ==> *final(self) == *old(self),
            r == type_map_value::<T>(*old(self)),
            type_map_value::<T>(*final(self)) is None,
    {
        self.inner.remove::<T>()
    }

    /// A mutable reference to the stored `T`, if any
    /// (`anymap::Map::get_mut::<T>`).
    ///
    /// Claimed: `Some` exactly when the identity that `key` holds is among
    /// the keys, and then a reference to the stored `T`, which is what the
    /// map holds once the reference is done with; the keys stay as they are,
    /// and when no value is handed out the map is untouched.
    #[verifier::external_body]
    pub fn get_mut<T: 'static>(&mut self, key: &TypeKey<T>) -> (r: Option<&mut T>)
        ensures
            r is Some <==> type_map_keys(*old(self)).contains(key@),
            type_map_keys(*final(self)) == type_map_keys(*old(self)),
            r is None ==> *final(self) == *old(self),
            r is None ==> type_map_value::<T>(*old(self)) is None,
            r matches Some(v) ==> type_map_value::<T>(*old(self)) == Some(*v)
                && type_map_value::<T>(*final(self)) == Some(*final(v)),
    {
        self.inner.get_mut::<T>()
    }
}

} // verus!
