//! Identity tokens: the keys under which instances and bindings are stored.

use std::any::TypeId;
use vstd::prelude::*;
use vstd::string::StringExecFns;

verus! {

/// `std::any::TypeId`, as a value whose contents proofs do not see.
#[verifier::external_type_specification]
#[verifier::external_body]
pub struct ExTypeId(TypeId);

/// Calls `std::any::TypeId::of`. Nothing is claimed of the token it returns;
/// the call stands for "a token that `T` is given" in `token_of`.
#[verifier::external_body]
fn type_id_raw<T: ?Sized + 'static>() -> (id: TypeId) {
    TypeId::of::<T>()
}

/// The token of `T`: the one that `TypeId::of` gives it.
pub closed spec fn token_of<T: ?Sized + 'static>() -> TypeId {
    choose|id: TypeId| call_ensures(type_id_raw::<T>, (), id)
}

/// Calls `std::any::TypeId::of`. The contract claims that a type has one
/// token: every call for `T` returns the same one.
#[verifier::external_body]
fn type_id_of<T: ?Sized + 'static>() -> (id: TypeId)
    ensures
        id == token_of::<T>(),
{
    TypeId::of::<T>()
}

/// Calls `TypeId`'s `==`. The contract claims that it holds exactly of equal
/// tokens, which is what makes a token an identity.
#[verifier::external_body]
fn type_id_eq(a: &TypeId, b: &TypeId) -> (same: bool)
    ensures
        same == (*a == *b),
{
    *a == *b
}

/// Formats a `TypeId` with its `Debug` impl. Nothing is claimed of the text.
#[verifier::external_body]
fn type_id_text(id: &TypeId) -> (text: String) {
    format!("{:?}", id)
}

/// The identity of a concrete type or of a capability, with the label that
/// error messages show for it. Two keys name the same identity exactly when
/// their tokens are equal; the label takes no part in lookups.
pub struct TypeKey {
    id: TypeId,
    label: String,
}

impl TypeKey {
    /// The identity token.
    pub closed spec fn id(&self) -> TypeId {
        self.id
    }

    /// The label shown in error messages.
    pub closed spec fn label(&self) -> Seq<char> {
        self.label@
    }

    /// Whether the key names the identity of `T`: its token is the token
    /// of `T`.
    pub open spec fn stands_for<T: ?Sized + 'static>(&self) -> bool {
        self.id() == token_of::<T>()
    }

    /// Whether the label of the key is the rendering of its token: what the
    /// `Debug` impl of `TypeId` wrote for it.
    pub closed spec fn labelled_by_token(&self) -> bool {
        call_ensures(type_id_text, (&self.id,), self.label)
    }

    /// The key of `T`, labelled with the rendering of its token.
    pub fn of<T: ?Sized + 'static>() -> (key: TypeKey)
        ensures
            key.stands_for::<T>(),
            key.labelled_by_token(),
    {
        let id = type_id_of::<T>();
        let label = type_id_text(&id);
        TypeKey { id, label }
    }

    /// The key of `T` under a label of the caller's choice.
    pub fn labelled<T: ?Sized + 'static>(label: &str) -> (key: TypeKey)
        ensures
            key.stands_for::<T>(),
            key.label() == label@,
    {
        TypeKey { id: type_id_of::<T>(), label: String::from_str(label) }
    }

    /// The identity token.
    pub fn token(&self) -> (id: TypeId)
        ensures
            id == self.id(),
    {
        self.id
    }

    /// The label shown in error messages.
    pub fn name(&self) -> (label: &str)
        ensures
            label@ == self.label(),
    {
        self.label.as_str()
    }

    /// Whether both keys name the same identity.
    pub fn same_identity(&self, other: &TypeKey) -> (same: bool)
        ensures
            same == (self.id() == other.id()),
    {
        type_id_eq(&self.id, &other.id)
    }
}

impl Clone for TypeKey {
    fn clone(&self) -> (copy: TypeKey)
        ensures
            copy == *self,
    {
        TypeKey { id: self.id, label: self.label.clone() }
    }
}

} // verus!
