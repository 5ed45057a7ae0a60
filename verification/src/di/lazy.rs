//! Deferred resolution.

use crate::di::container::{Container, ContainerView};
use crate::di::identity::TypeKey;
use crate::error::MeshestraError;
use crate::shared::share;
use std::sync::Arc;
use vstd::prelude::*;

verus! {

/// What a deferred dependency hands out, given what it has kept: the
/// handle that was kept, without asking the container, or else what a
/// typed resolution of `key` in `container` gives.
pub open spec fn kept_or_resolved_spec<T: 'static + Send + Sync>(
    kept: Option<&Arc<T>>,
    container: ContainerView,
    key: TypeKey,
    outcome: Result<Arc<T>, MeshestraError>,
) -> bool {
    match kept {
        Some(handle) => outcome == Ok::<Arc<T>, MeshestraError>(*handle),
        None => container.resolves_typed(key, outcome),
    }
}

/// The handle that a deferred dependency hands out: the one it has kept,
/// if it has kept one, and the container is not asked; otherwise what the
/// typed resolution of `key` in `container` gives.
pub fn kept_or_resolved<T: 'static + Send + Sync>(
    kept: Option<&Arc<T>>,
    container: &Container,
    key: &TypeKey,
) -> (outcome: Result<Arc<T>, MeshestraError>)
    ensures
        kept_or_resolved_spec(kept, container@, *key, outcome),
{
    match kept {
        Some(handle) => Ok(share(handle)),
        None => container.resolve_as::<T>(key),
    }
}

/// A dependency that is resolved on first use and kept from then on. It
/// lets two services depend on each other: neither needs the other to be
/// registered when it is built. Resolving takes exclusive access, so the
/// value is resolved once however many holders wait for it.
pub struct Lazy<'a, T> {
    container: &'a Container,
    key: TypeKey,
    instance: Option<Arc<T>>,
}

impl<'a, T: 'static + Send + Sync> Lazy<'a, T> {
    /// The container that the value is resolved from.
    pub closed spec fn source(&self) -> &'a Container {
        self.container
    }

    /// The identity that is resolved.
    pub closed spec fn key(&self) -> TypeKey {
        self.key
    }

    /// The value, once it has been resolved.
    pub closed spec fn cached(&self) -> Option<Arc<T>> {
        self.instance
    }

    /// A dependency on `T` that is not resolved yet, under a key that
    /// stands for `T`.
    pub fn new(container: &'a Container) -> (lazy: Lazy<'a, T>)
        ensures
            lazy.cached() is None,
            lazy.source() == container,
            lazy.key().stands_for::<T>(),
    {
        Lazy { container, key: TypeKey::of::<T>(), instance: None }
    }

    /// A dependency on the identity of `key` that is not resolved yet.
    pub fn keyed(container: &'a Container, key: TypeKey) -> (lazy: Lazy<'a, T>)
        ensures
            lazy.cached() is None,
            lazy.source() == container,
            lazy.key() == key,
    {
        Lazy { container, key, instance: None }
    }

    /// Whether the value has been resolved.
    pub fn is_resolved(&self) -> (resolved: bool)
        ensures
            resolved == self.cached() is Some,
    {
        self.instance.is_some()
    }

    /// The value. The first call that finds it resolves it and keeps it;
    /// later calls return what was kept and do not ask the container again.
    /// A call that does not find it fails as the resolution does, keeps
    /// nothing, and leaves the next call to try again.
    pub fn get(&mut self) -> (outcome: Result<Arc<T>, MeshestraError>)
        ensures
            final(self).source() == old(self).source(),
            final(self).key() == old(self).key(),
            old(self).cached() matches Some(kept) ==> outcome == Ok::<Arc<T>, MeshestraError>(kept)
                && final(self).cached() == old(self).cached(),
            old(self).cached() is None ==> old(self).source()@.resolves_typed(
                old(self).key(),
                outcome,
            ) && final(self).cached() == (match outcome {
                Ok(found) => Some(found),
                Err(_) => None,
            }),
    {
        let kept = match &self.instance {
            Some(kept) => Some(kept),
            None => None,
        };
        match kept_or_resolved(kept, self.container, &self.key) {
            Ok(found) => {
                if self.instance.is_none() {
                    self.instance = Some(share(&found));
                }
                Ok(found)
            },
            Err(error) => Err(error),
        }
    }
}

impl<'a, T: 'static + Send + Sync> Clone for Lazy<'a, T> {
    /// A dependency on the same identity of the same container, with the
    /// value that this one has kept, if it has kept one.
    fn clone(&self) -> (copy: Lazy<'a, T>)
        ensures
            copy.source() == self.source(),
            copy.key() == self.key(),
            copy.cached() == self.cached(),
    {
        let instance = match &self.instance {
            Some(kept) => Some(share(kept)),
            None => None,
        };
        Lazy { container: self.container, key: self.key.clone(), instance }
    }
}

} // verus!
