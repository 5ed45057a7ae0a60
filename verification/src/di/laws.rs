//! What holds of every container, whatever was registered in it.

use crate::di::container::{
    bound, missing_implementation, typed_spec, unknown_capability, ContainerView,
};
use crate::di::entry::{ServiceEntry, TraitBinding};
use crate::di::identity::{token_of, TypeKey};
use crate::error::{ErrorView, MeshestraError};
use std::sync::Arc;
use vstd::prelude::*;

verus! {

/// Registration keeps a container well formed.
pub proof fn lemma_registration_keeps_wf(c: ContainerView, entry: ServiceEntry, binding: TraitBinding)
    requires
        c.wf(),
    ensures
        c.with_service(entry).wf(),
        c.with_binding(binding).wf(),
{
}

/// Registering twice under one identity leaves the container as if only the
/// second registration had been made: the second entry is the one that
/// resolves, the first is gone, and the identity still counts once.
pub proof fn lemma_registration_overwrites(
    c: ContainerView,
    first: ServiceEntry,
    second: ServiceEntry,
)
    requires
        c.wf(),
        first.key().id() == second.key().id(),
    ensures
        c.with_service(first).with_service(second) == c.with_service(second),
        c.with_service(first).with_service(second).service(second.key().id()) == Some(second),
        c.with_service(first).with_service(second).services.len() == c.with_service(
            first,
        ).services.len(),
{
    let once = c.with_service(first);
    let twice = once.with_service(second);
    assert(twice.services =~= c.with_service(second).services);
    assert(once.services.dom().insert(second.key().id()) =~= once.services.dom());
}

/// An entry of another identity stays resolvable when an entry is registered.
pub proof fn lemma_registration_is_local(c: ContainerView, entry: ServiceEntry, other: TypeKey)
    requires
        other.id() != entry.key().id(),
    ensures
        c.with_service(entry).service(other.id()) == c.service(other.id()),
        c.with_service(entry).bindings == c.bindings,
{
}

/// A binding and the instance it points at may be registered in either
/// order: the container is the same, and the capability resolves to that
/// binding and that entry once both are there.
pub proof fn lemma_binding_order_is_free(
    c: ContainerView,
    binding: TraitBinding,
    entry: ServiceEntry,
)
    requires
        binding.implementation().id() == entry.key().id(),
    ensures
        c.with_binding(binding).with_service(entry) == c.with_service(entry).with_binding(binding),
        c.with_binding(binding).with_service(entry).bound_service(binding.capability().id())
            == Some((binding, entry)),
{
}

/// A binding whose implementation is not registered does not resolve, and
/// resolving it reports the missing dependency under the capability's label,
/// not an unknown capability.
pub proof fn lemma_binding_without_implementation(
    c: ContainerView,
    binding: TraitBinding,
    key: TypeKey,
    outcome: Result<(TraitBinding, ServiceEntry), MeshestraError>,
)
    requires
        key.id() == binding.capability().id(),
        !c.services.contains_key(binding.implementation().id()),
        c.with_binding(binding).resolves_binding(key, outcome),
    ensures
        outcome matches Err(e) && e@ == missing_implementation(key.label()),
{
}

/// A capability without binding and a binding without implementation are
/// both reported as a missing dependency, and never with the same text,
/// whatever the label of the capability is.
pub proof fn lemma_misses_read_differently(label: Seq<char>)
    ensures
        unknown_capability() is DependencyNotFound,
        missing_implementation(label) is DependencyNotFound,
        unknown_capability() != missing_implementation(label),
        unknown_capability().message() != missing_implementation(label).message(),
{
    reveal_strlit("Unknown Trait");
    reveal_strlit("Implementation of ");
    reveal_strlit("Dependency not found: ");
    let first = "Unknown Trait"@;
    let second = "Implementation of "@ + label;
    assert(first[0] == 'U');
    assert(second[0] == 'I');
    assert(first != second);
    let head = "Dependency not found: "@;
    assert((head + first)[head.len() as int] == 'U');
    assert((head + second)[head.len() as int] == 'I');
}

/// Resolving an identity that nothing was registered under reports a
/// missing dependency: under the key's label for a concrete identity, as an
/// unknown capability for a binding.
pub proof fn lemma_resolve_miss(
    c: ContainerView,
    key: TypeKey,
    entry_outcome: Result<ServiceEntry, MeshestraError>,
    binding_outcome: Result<(TraitBinding, ServiceEntry), MeshestraError>,
)
    requires
        !c.knows(key.id()),
        c.resolves_entry(key, entry_outcome),
        c.resolves_binding(key, binding_outcome),
    ensures
        entry_outcome matches Err(e) && e@ == (ErrorView::DependencyNotFound { name: key.label() }),
        binding_outcome matches Err(e) && e@ == unknown_capability(),
{
}

/// Several capabilities may be bound to one implementation: each resolves to
/// the same entry.
pub proof fn lemma_capabilities_share_an_implementation(
    c: ContainerView,
    one: TraitBinding,
    other: TraitBinding,
    entry: ServiceEntry,
)
    requires
        one.capability().id() != other.capability().id(),
        one.implementation().id() == entry.key().id(),
        other.implementation().id() == entry.key().id(),
    ensures
        c.with_service(entry).with_binding(one).with_binding(other).bound_service(
            one.capability().id(),
        ) == Some((one, entry)),
        c.with_service(entry).with_binding(one).with_binding(other).bound_service(
            other.capability().id(),
        ) == Some((other, entry)),
{
}

/// A typed resolution of an identity whose entry holds an instance of `T`
/// gives the handle to that instance: it is no miss and no failed
/// downcast.
pub proof fn lemma_typed_hit<T: 'static + Send + Sync>(
    c: ContainerView,
    entry: ServiceEntry,
    instance: T,
    key: TypeKey,
    outcome: Result<Arc<T>, MeshestraError>,
)
    requires
        c.service(key.id()) == Some(entry),
        entry.holds(instance),
        c.resolves_typed(key, outcome),
    ensures
        outcome matches Ok(handle) && *handle == instance,
{
    let typed = choose|typed: Option<Arc<T>>|
        entry.downcasts_to(typed) && typed_spec(key, typed, outcome);
    entry.lemma_downcast(typed);
}

/// Registering `T` twice leaves only the second instance resolvable: after
/// two registrations under keys that stand for `T`, a typed resolution
/// under a key that stands for `T` gives the handle to the second
/// instance, and the type still counts once.
pub proof fn lemma_typed_registration_overwrites<T: 'static + Send + Sync>(
    c: ContainerView,
    first: ServiceEntry,
    second: ServiceEntry,
    instance: T,
    key: TypeKey,
    outcome: Result<Arc<T>, MeshestraError>,
)
    requires
        c.wf(),
        first.key().stands_for::<T>(),
        second.key().stands_for::<T>(),
        key.stands_for::<T>(),
        second.holds(instance),
        c.with_service(first).with_service(second).resolves_typed(key, outcome),
    ensures
        outcome matches Ok(handle) && *handle == instance,
        c.with_service(first).with_service(second).services.len() == c.with_service(
            first,
        ).services.len(),
{
    lemma_registration_overwrites(c, first, second);
    lemma_typed_hit(c.with_service(first).with_service(second), second, instance, key, outcome);
}

/// Resolving a capability whose binding stores `caster_fn` and whose
/// implementation is registered with an instance succeeds: the lookup by
/// identity hands the caster the entry it was bound with, so the cast
/// cannot fail, and the handle returned is what `caster_fn` made of the
/// handle to that instance.
pub proof fn lemma_typed_capability_hit<Trait, Impl, F>(
    c: ContainerView,
    caster_fn: F,
    handle: Arc<Impl>,
    key: TypeKey,
    outcome: Result<Arc<Trait>, MeshestraError>,
) where
    Trait: ?Sized + 'static + Send + Sync,
    Impl: 'static + Send + Sync,
    F: Fn(Arc<Impl>) -> Arc<Trait> + 'static + Send + Sync,

    requires
        c.wf(),
        c.binds::<Trait, Impl, F>(caster_fn),
        c.holds_instance::<Impl>(*handle),
        key.stands_for::<Trait>(),
        c.resolves_capability(key, outcome),
    ensures
        outcome matches Ok(made) && caster_fn.ensures((handle,), made),
{
    let binding = c.bindings[token_of::<Trait>()];
    let entry = c.services[token_of::<Impl>()];
    assert(c.bound_service(key.id()) == Some((binding, entry)));
    binding.lemma_cast::<Trait, Impl, F>(caster_fn, entry, handle, outcome);
}

/// An implementation and a capability bound to it resolve to the same
/// instance: resolving the implementation gives the handle to the
/// registered instance, and resolving the capability gives what the caster
/// made of that very handle.
pub proof fn lemma_capability_shares_the_instance<Trait, Impl, F>(
    c: ContainerView,
    caster_fn: F,
    instance: Impl,
    concrete: TypeKey,
    typed: Result<Arc<Impl>, MeshestraError>,
    key: TypeKey,
    outcome: Result<Arc<Trait>, MeshestraError>,
) where
    Trait: ?Sized + 'static + Send + Sync,
    Impl: 'static + Send + Sync,
    F: Fn(Arc<Impl>) -> Arc<Trait> + 'static + Send + Sync,

    requires
        c.wf(),
        c.binds::<Trait, Impl, F>(caster_fn),
        c.holds_instance::<Impl>(instance),
        concrete.stands_for::<Impl>(),
        c.resolves_typed(concrete, typed),
        key.stands_for::<Trait>(),
        c.resolves_capability(key, outcome),
    ensures
        typed matches Ok(handle) && *handle == instance && (outcome matches Ok(made)
            && caster_fn.ensures((handle,), made)),
{
    lemma_typed_hit::<Impl>(c, c.services[token_of::<Impl>()], instance, concrete, typed);
    lemma_typed_capability_hit::<Trait, Impl, F>(c, caster_fn, typed->Ok_0, key, outcome);
}

/// A binding of the capability `Trait` to `Impl` and an instance of `Impl`
/// may be registered in either order: the container is the same, and once
/// both are there, resolving `Trait` gives what the caster of the binding
/// made of the handle to the instance.
pub proof fn lemma_typed_binding_order_is_free<Trait, Impl, F>(
    c: ContainerView,
    binding: TraitBinding,
    caster_fn: F,
    entry: ServiceEntry,
    handle: Arc<Impl>,
    key: TypeKey,
    outcome: Result<Arc<Trait>, MeshestraError>,
) where
    Trait: ?Sized + 'static + Send + Sync,
    Impl: 'static + Send + Sync,
    F: Fn(Arc<Impl>) -> Arc<Trait> + 'static + Send + Sync,

    requires
        bound::<Trait, Impl, F>(binding, caster_fn),
        binding.capability().stands_for::<Trait>(),
        entry.key().stands_for::<Impl>(),
        entry.holds(*handle),
        key.stands_for::<Trait>(),
        c.with_binding(binding).with_service(entry).resolves_capability(key, outcome),
    ensures
        c.with_binding(binding).with_service(entry) == c.with_service(entry).with_binding(binding),
        c.with_binding(binding).with_service(entry).bound_service(key.id()) == Some(
            (binding, entry),
        ),
        outcome matches Ok(made) && caster_fn.ensures((handle,), made),
{
    binding.lemma_cast::<Trait, Impl, F>(caster_fn, entry, handle, outcome);
}

/// The last binding of a capability wins: after two bindings of `Trait`,
/// resolving it gives what the caster of the second made of the instance
/// of the second implementation, and the first caster has no part in it.
pub proof fn lemma_typed_last_binding_wins<Trait, First, Second, F, G>(
    c: ContainerView,
    first: TraitBinding,
    first_fn: F,
    second: TraitBinding,
    second_fn: G,
    handle: Arc<Second>,
    key: TypeKey,
    outcome: Result<Arc<Trait>, MeshestraError>,
) where
    Trait: ?Sized + 'static + Send + Sync,
    First: 'static + Send + Sync,
    Second: 'static + Send + Sync,
    F: Fn(Arc<First>) -> Arc<Trait> + 'static + Send + Sync,
    G: Fn(Arc<Second>) -> Arc<Trait> + 'static + Send + Sync,

    requires
        c.wf(),
        bound::<Trait, First, F>(first, first_fn),
        bound::<Trait, Second, G>(second, second_fn),
        c.holds_instance::<Second>(*handle),
        key.stands_for::<Trait>(),
        c.with_binding(first).with_binding(second).resolves_capability(key, outcome),
    ensures
        c.with_binding(first).with_binding(second) == c.with_binding(second),
        outcome matches Ok(made) && second_fn.ensures((handle,), made),
{
    let after = c.with_binding(first).with_binding(second);
    assert(after.bindings =~= c.with_binding(second).bindings);
    lemma_registration_keeps_wf(c, c.services[token_of::<Second>()], second);
    lemma_typed_capability_hit::<Trait, Second, G>(after, second_fn, handle, key, outcome);
}

/// Two capabilities bound to one implementation both resolve, each to what
/// its own caster made of the handle to the one instance; the second
/// binding does not displace the first.
pub proof fn lemma_typed_capabilities_share<One, Other, Impl, F, G>(
    c: ContainerView,
    one_fn: F,
    other_fn: G,
    handle: Arc<Impl>,
    one_key: TypeKey,
    other_key: TypeKey,
    one: Result<Arc<One>, MeshestraError>,
    other: Result<Arc<Other>, MeshestraError>,
) where
    One: ?Sized + 'static + Send + Sync,
    Other: ?Sized + 'static + Send + Sync,
    Impl: 'static + Send + Sync,
    F: Fn(Arc<Impl>) -> Arc<One> + 'static + Send + Sync,
    G: Fn(Arc<Impl>) -> Arc<Other> + 'static + Send + Sync,

    requires
        c.wf(),
        c.binds::<One, Impl, F>(one_fn),
        c.binds::<Other, Impl, G>(other_fn),
        c.holds_instance::<Impl>(*handle),
        one_key.stands_for::<One>(),
        other_key.stands_for::<Other>(),
        c.resolves_capability(one_key, one),
        c.resolves_capability(other_key, other),
    ensures
        one matches Ok(made) && one_fn.ensures((handle,), made),
        other matches Ok(made) && other_fn.ensures((handle,), made),
{
    lemma_typed_capability_hit::<One, Impl, F>(c, one_fn, handle, one_key, one);
    lemma_typed_capability_hit::<Other, Impl, G>(c, other_fn, handle, other_key, other);
}

/// Resolving a type that nothing was registered for reports a missing
/// dependency under the label of the key, whatever the key's label is.
pub proof fn lemma_typed_miss<T: 'static + Send + Sync>(
    c: ContainerView,
    key: TypeKey,
    outcome: Result<Arc<T>, MeshestraError>,
)
    requires
        !c.services.contains_key(key.id()),
        c.resolves_typed(key, outcome),
    ensures
        outcome matches Err(e) && e@ == (ErrorView::DependencyNotFound { name: key.label() }),
{
}

} // verus!
