//! Run-time identities of Rust types, as values that verified code can
//! compare and store.
use std::any::TypeId;
use std::marker::PhantomData;
use vstd::prelude::*;

verus! {

/// `std::any::TypeId` is opaque to the verifier: a value of it is only ever
/// compared with another one.
#[verifier::external_type_specification]
#[verifier::external_body]
pub struct ExTypeId(TypeId);

/// `<TypeId as Clone>::clone`: a `TypeId` is `Copy`, so the clone is the
/// same value.
pub assume_specification[ <TypeId as Clone>::clone ](id: &TypeId) -> (r: TypeId)
    ensures
        r == *id,
;

/// Compares two type identities with `<TypeId as PartialEq>::eq`.
///
/// Claimed: the result is `true` exactly when the two identities are the
/// same value (std documents `TypeId` equality as identity of the types).
#[verifier::external_body]
pub fn type_id_eq(a: &TypeId, b: &TypeId) -> (r: bool)
    ensures
        r == (*a == *b),
{
    a == b
}

/// Compares two string slices with `<str as PartialEq>::eq`.
///
/// Claimed: the result is `true` exactly when both hold the same characters.
#[verifier::external_body]
pub fn str_eq(a: &str, b: &str) -> (r: bool)
    ensures
        r == (a@ == b@),
{
    a == b
}

/// The text that `<TypeId as Debug>::fmt` writes for a type identity.
pub uninterp spec fn type_id_debug(id: TypeId) -> Seq<char>;

/// Formats a type identity with `<TypeId as Debug>::fmt`.
///
/// Claimed: the text depends on the identity alone (std documents no format
/// for it, so it is only named).
#[verifier::external_body]
pub fn type_id_text(id: &TypeId) -> (r: String)
    ensures
        r@ == type_id_debug(*id),
{
    format!("{:?}", id)
}

/// The identity of the type `T`, tied to `T` itself.
///
/// A `TypeKey<T>` can only be made by [`TypeKey::of`], so the `TypeId` it
/// holds is always `TypeId::of::<T>()`. The containers of this crate key
/// their contents by such values, which lets verified code follow one key
/// from a lookup to an insertion.
pub struct TypeKey<T: ?Sized> {
    id: TypeId,
    marker: PhantomData<T>,
}

/// The identity of the type `T`: the one that every key made for `T` holds
/// (see [`TypeKey::of`]). It depends on `T` alone; nothing more is known of
/// it, in particular not whether it differs from that of another type.
pub open spec fn type_id_of<T: ?Sized>() -> TypeId {
    (choose|k: TypeKey<T>| #![trigger k.id()] true).id()
}

impl<T: ?Sized> View for TypeKey<T> {
    type V = TypeId;

    open spec fn view(&self) -> TypeId {
        type_id_of::<T>()
    }
}

impl<T: ?Sized> TypeKey<T> {
    /// The type identity held by this key.
    pub closed spec fn id(&self) -> TypeId {
        self.id
    }

    /// A key holds the identity of its own type.
    #[verifier::type_invariant]
    closed spec fn holds_its_type(self) -> bool {
        self.id == type_id_of::<T>()
    }

    /// Returns the held type identity.
    pub fn type_id(&self) -> (r: TypeId)
        ensures
            r == self@,
    {
        proof {
            use_type_invariant(self);
        }
        self.id
    }
}

impl<T: ?Sized + 'static> TypeKey<T> {
    /// Calls `std::any::TypeId::of::<T>()` and keeps the result.
    ///
    /// Claimed: the identity depends on `T` alone, so every key made for `T`
    /// holds the same one, [`type_id_of::<T>()`](type_id_of) (std documents
    /// `TypeId` as a globally unique identifier of a type); this is the
    /// key's type invariant. That it is `TypeId::of::<T>()` is what the
    /// trusted items that take a `TypeKey<T>` rely on.
    #[verifier::external_body]
    pub fn of() -> (r: Self)
        ensures
            r@ == type_id_of::<T>(),
    {
        TypeKey { id: TypeId::of::<T>(), marker: PhantomData }
    }
}

impl<T: ?Sized> Clone for TypeKey<T> {
    fn clone(&self) -> (r: Self)
        ensures
            r@ == self@,
    {
        proof {
            use_type_invariant(self);
        }
        TypeKey { id: self.id, marker: PhantomData }
    }
}

} // verus!
