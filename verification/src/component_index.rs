//! Keys under which component parameters are stored: a property name, or the
//! identity of a type.
use crate::type_key::{str_eq, type_id_eq};
use std::any::TypeId;
use vstd::prelude::*;

verus! {

/// Identifies a stored parameter either by property name or by type.
#[derive(Clone, Debug, Eq, Hash, Ord, PartialEq, PartialOrd)]
pub enum ComponentIndex {
    String(String),
    Id(TypeId),
}

/// The mathematical form of a [`ComponentIndex`].
pub enum IndexKey {
    Name(Seq<char>),
    Type(TypeId),
}

impl View for ComponentIndex {
    type V = IndexKey;

    open spec fn view(&self) -> IndexKey {
        match self {
            ComponentIndex::String(s) => IndexKey::Name(s@),
            ComponentIndex::Id(id) => IndexKey::Type(*id),
        }
    }
}

impl ComponentIndex {
    /// The index of a named property.
    pub fn named(name: &str) -> (r: ComponentIndex)
        ensures
            r@ == IndexKey::Name(name@),
    {
        ComponentIndex::String(String::from_str(name))
    }

    /// Whether two indexes denote the same key.
    pub fn same_key(&self, other: &ComponentIndex) -> (r: bool)
        ensures
            r == (self@ == other@),
    {
        match (self, other) {
            (ComponentIndex::String(a), ComponentIndex::String(b)) => str_eq(a.as_str(), b.as_str()),
            (ComponentIndex::Id(a), ComponentIndex::Id(b)) => type_id_eq(a, b),
            _ => false,
        }
    }
}

} // verus!
