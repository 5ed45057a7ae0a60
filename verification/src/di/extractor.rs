//! Injection of a service into a request handler.

use crate::di::container::{Container, ContainerView};
use crate::di::identity::TypeKey;
use crate::error::{ErrorView, MeshestraError, INTERNAL_SERVER_ERROR};
use crate::text::prefixed;
use crate::shared::share;
use std::sync::Arc;
use vstd::prelude::*;

verus! {

/// A service resolved for a handler.
pub struct Inject<T>(pub Arc<T>);

/// A state that gives access to the container.
pub trait HasContainer {
    /// The container.
    fn get_container(&self) -> &Container;
}

/// The rejection of a request whose service could not be resolved.
pub open spec fn rejection_spec(error: ErrorView) -> (u16, Seq<char>) {
    (INTERNAL_SERVER_ERROR, "Dependency injection failed: "@ + error.message())
}

/// What the handler gets, given the result of a resolution: the service,
/// or a rejection with status 500 and the message of the error.
pub open spec fn injected_spec<T>(
    resolved: Result<Arc<T>, MeshestraError>,
    outcome: Result<Inject<T>, (u16, String)>,
) -> bool {
    match resolved {
        Ok(service) => outcome matches Ok(inject) && inject.0 == service,
        Err(error) => outcome matches Err(rejection) && (rejection.0, rejection.1@)
            == rejection_spec(error@),
    }
}

/// Whether `outcome` is what the handler gets for a typed resolution in a
/// container of the given value, under some key.
pub open spec fn injects<T: 'static + Send + Sync>(
    container: ContainerView,
    outcome: Result<Inject<T>, (u16, String)>,
) -> bool {
    exists|key: TypeKey, resolved: Result<Arc<T>, MeshestraError>|
        key.stands_for::<T>() && #[trigger] container.resolves_typed(key, resolved)
            && injected_spec(resolved, outcome)
}

/// Whether `container` is what the state hands out as its container.
pub open spec fn container_of<S: HasContainer>(state: &S, container: &Container) -> bool {
    call_ensures(S::get_container, (state,), container)
}

/// Turns the result of a resolution into what the handler gets: the service,
/// or a rejection with status 500 and the message of the error.
pub fn injected<T>(resolved: Result<Arc<T>, MeshestraError>) -> (outcome: Result<
    Inject<T>,
    (u16, String),
>)
    ensures
        injected_spec(resolved, outcome),
{
    match resolved {
        Ok(service) => Ok(Inject(service)),
        Err(error) => {
            let text = error.message();
            Err((INTERNAL_SERVER_ERROR, prefixed("Dependency injection failed: ", text.as_str())))
        },
    }
}

impl<T: 'static + Send + Sync> Inject<T> {
    /// Resolves `T` from the container of `state` for a handler: the state
    /// is asked for its container once, `T` is resolved in it, and the
    /// handler gets the service or the rejection that `injected` builds from
    /// the error. Which token stands for `T` is not known to the contract.
    pub fn from_state<S: HasContainer>(state: &S) -> (outcome: Result<Inject<T>, (u16, String)>)
        ensures
            exists|container: &Container| #[trigger]
                container_of(state, container) && injects(container@, outcome),
            outcome matches Err(rejection) ==> rejection.0 == INTERNAL_SERVER_ERROR,
    {
        let container = state.get_container();
        assert(container_of(state, container));
        let resolved = container.resolve::<T>();
        let outcome = injected(resolved);
        proof {
            let key = choose|key: TypeKey|
                key.stands_for::<T>() && container@.resolves_typed(key, resolved);
            assert(container@.resolves_typed(key, resolved) && injected_spec(resolved, outcome));
        }
        outcome
    }

    /// Resolves the service under `key` from `container` for a handler: the
    /// handler gets what `injected` makes of the typed resolution.
    pub fn from_container(container: &Container, key: &TypeKey) -> (outcome: Result<
        Inject<T>,
        (u16, String),
    >)
        ensures
            exists|resolved: Result<Arc<T>, MeshestraError>| #[trigger]
                container@.resolves_typed(*key, resolved) && injected_spec(resolved, outcome),
            !container@.services.contains_key(key.id()) ==> (outcome matches Err(rejection) && (
            rejection.0, rejection.1@) == rejection_spec(
                ErrorView::DependencyNotFound { name: key.label() },
            )),
            outcome matches Err(rejection) ==> rejection.0 == INTERNAL_SERVER_ERROR,
    {
        let resolved = container.resolve_as::<T>(key);
        let outcome = injected(resolved);
        assert(container@.resolves_typed(*key, resolved) && injected_spec(resolved, outcome));
        outcome
    }
}

impl<T> Inject<T> {
    /// The service.
    pub fn get(&self) -> (service: &T)
        ensures
            *service == *self.0,
    {
        &self.0
    }
}

impl<T> Clone for Inject<T> {
    fn clone(&self) -> (copy: Inject<T>)
        ensures
            copy.0 == self.0,
    {
        Inject(share(&self.0))
    }
}

} // verus!
