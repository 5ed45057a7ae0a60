//! Erased payloads and the records the container stores.

use crate::di::identity::TypeKey;
use crate::error::{ErrorView, MeshestraError};
use crate::shared::share;
use std::any::Any;
use std::sync::Arc;
use vstd::prelude::*;

verus! {

/// A shared, type-erased instance. Its contents are invisible to proofs: a
/// payload is only stored, shared and handed to a downcast.
#[verifier::external_body]
pub struct Payload {
    inner: Arc<dyn Any + Send + Sync>,
}

/// A stored conversion from the payload of an implementation to the payload
/// that wraps the capability handle made from it.
#[verifier::external_body]
pub struct Caster {
    run: Arc<dyn Fn(Arc<dyn Any + Send + Sync>) -> Option<Arc<dyn Any + Send + Sync>> + Send + Sync>,
}

/// Moves `instance` behind `Arc::new` and erases its type. Nothing is claimed
/// of the payload.
#[verifier::external_body]
fn payload_of<T: 'static + Send + Sync>(instance: T) -> (payload: Payload) {
    Payload { inner: Arc::new(instance) }
}

/// Calls `Arc::clone`: the result is another handle to the same instance.
#[verifier::external_body]
fn payload_share(payload: &Payload) -> (shared: Payload)
    ensures
        shared == *payload,
{
    Payload { inner: Arc::clone(&payload.inner) }
}

/// Calls `Arc::downcast` on a clone of the handle. The contract claims what
/// the downcast is for: where the payload was erased from an instance of
/// `T`, the handle to that instance comes back; where `None` comes back, the
/// payload was erased from no instance of `T`.
#[verifier::external_body]
fn payload_downcast<T: 'static + Send + Sync>(payload: &Payload) -> (typed: Option<Arc<T>>)
    ensures
        match typed {
            Some(handle) => forall|instance: T| #[trigger]
                call_ensures(payload_of::<T>, (instance,), *payload) ==> *handle == instance,
            None => forall|instance: T| !#[trigger] call_ensures(
                payload_of::<T>,
                (instance,),
                *payload,
            ),
        },
{
    Arc::clone(&payload.inner).downcast::<T>().ok()
}

/// Whether running `caster` on a payload that was erased from an instance
/// of `Impl` gives what `caster_fn` makes of the handle to that instance,
/// erased in its turn.
pub closed spec fn runs_as<Trait, Impl, F>(caster: Caster, caster_fn: F) -> bool where
    Trait: ?Sized + 'static + Send + Sync,
    Impl: 'static + Send + Sync,
    F: Fn(Arc<Impl>) -> Arc<Trait> + 'static + Send + Sync,
 {
    forall|handle: Arc<Impl>, payload: Payload, cast: Option<Payload>|
        #![trigger call_ensures(payload_of::<Impl>, (*handle,), payload), call_ensures(caster_apply, (&caster, &payload), cast)]
        call_ensures(payload_of::<Impl>, (*handle,), payload) && call_ensures(
            caster_apply,
            (&caster, &payload),
            cast,
        ) ==> (cast matches Some(wrapped) && exists|made: Arc<Trait>| #[trigger]
            caster_fn.ensures((handle,), made) && call_ensures(
                payload_of::<Arc<Trait>>,
                (made,),
                wrapped,
            ))
}

/// Stores `caster_fn` behind a closure over erased payloads: the closure calls
/// `Arc::downcast` for `Impl`, hands the typed handle to `caster_fn` and wraps
/// what comes back with `Arc::new`. The stored closure may be run on any
/// handle, so `caster_fn` has to accept every handle. The contract claims
/// what the stored closure does with a payload that was erased from an
/// instance of `Impl`: the downcast succeeds, `caster_fn` is called on the
/// handle to that instance, and what it returns comes out erased as
/// `payload_of` erases it.
#[verifier::external_body]
fn caster_of<Trait, Impl, F>(caster_fn: F) -> (caster: Caster) where
    Trait: ?Sized + 'static + Send + Sync,
    Impl: 'static + Send + Sync,
    F: Fn(Arc<Impl>) -> Arc<Trait> + 'static + Send + Sync,

    requires
        forall|handle: Arc<Impl>| caster_fn.requires((handle,)),
    ensures
        (runs_as::<Trait, Impl, F>(caster, caster_fn)),
{
    Caster {
        run: Arc::new(
            move |erased: Arc<dyn Any + Send + Sync>| match erased.downcast::<Impl>() {
                Ok(typed) => Some(Arc::new(caster_fn(typed)) as Arc<dyn Any + Send + Sync>),
                Err(_) => None,
            },
        ),
    }
}

/// Calls `Arc::clone`: the result is another handle to the same closure.
#[verifier::external_body]
fn caster_share(caster: &Caster) -> (shared: Caster)
    ensures
        shared == *caster,
{
    Caster { run: Arc::clone(&caster.run) }
}

/// Runs the stored closure on a clone of the payload's handle. Nothing is
/// claimed of the outcome: the closure holds code of the caller.
#[verifier::external_body]
fn caster_apply(caster: &Caster, payload: &Payload) -> (cast: Option<Payload>) {
    match (caster.run)(Arc::clone(&payload.inner)) {
        Some(inner) => Some(Payload { inner }),
        None => None,
    }
}

/// Whether `unwrapped` is a downcast of `wrapped` to `T` as the downcast is
/// meant: the instance that was erased, where one of `T` was, and nothing
/// only where none was.
pub closed spec fn unwraps<T: 'static + Send + Sync>(wrapped: Payload, unwrapped: Option<Arc<T>>) -> bool {
    match unwrapped {
        Some(handle) => forall|instance: T| #[trigger]
            call_ensures(payload_of::<T>, (instance,), wrapped) ==> *handle == instance,
        None => forall|instance: T| !#[trigger] call_ensures(payload_of::<T>, (instance,), wrapped),
    }
}

/// One registered instance: the identity it was registered under, and its
/// erased payload. A payload travels with its identity from the moment it is
/// erased, so a lookup by identity always precedes a cast.
pub struct ServiceEntry {
    key: TypeKey,
    payload: Payload,
}

impl ServiceEntry {
    /// The identity the entry is registered under.
    pub closed spec fn key(&self) -> TypeKey {
        self.key
    }

    /// Whether the payload of the entry is what erasing `instance` gave: a
    /// shared handle to that instance.
    pub closed spec fn holds<T: 'static + Send + Sync>(&self, instance: T) -> bool {
        call_ensures(payload_of::<T>, (instance,), self.payload)
    }

    /// Whether `typed` is what the downcast of the payload to `T` gave:
    /// the handle to the instance that the entry holds, where it holds one
    /// of `T`, and nothing only where it holds none.
    pub closed spec fn downcasts_to<T: 'static + Send + Sync>(&self, typed: Option<Arc<T>>) -> bool {
        &&& call_ensures(payload_downcast::<T>, (&self.payload,), typed)
        &&& match typed {
            Some(handle) => forall|instance: T| #[trigger]
                self.holds(instance) ==> *handle == instance,
            None => forall|instance: T| !#[trigger] self.holds(instance),
        }
    }

    /// Erases `instance` under the key of `T`, labelled with the rendering
    /// of its token.
    pub fn new<T: 'static + Send + Sync>(instance: T) -> (entry: ServiceEntry)
        ensures
            entry.key().stands_for::<T>(),
            entry.key().labelled_by_token(),
            entry.holds(instance),
    {
        ServiceEntry { key: TypeKey::of::<T>(), payload: payload_of(instance) }
    }

    /// Erases `instance` under the key of `T`, labelled as the caller chooses.
    pub fn labelled<T: 'static + Send + Sync>(label: &str, instance: T) -> (entry: ServiceEntry)
        ensures
            entry.key().stands_for::<T>(),
            entry.key().label() == label@,
            entry.holds(instance),
    {
        ServiceEntry { key: TypeKey::labelled::<T>(label), payload: payload_of(instance) }
    }

    /// The identity the entry is registered under.
    pub fn identity(&self) -> (key: &TypeKey)
        ensures
            *key == self.key(),
    {
        &self.key
    }

    /// A downcast of an entry that holds an instance of `T` gives the
    /// handle to that instance, and a downcast that gives nothing is of an
    /// entry that holds no instance of `T`.
    pub proof fn lemma_downcast<T: 'static + Send + Sync>(self, typed: Option<Arc<T>>)
        requires
            self.downcasts_to(typed),
        ensures
            match typed {
                Some(handle) => forall|instance: T| #[trigger]
                    self.holds(instance) ==> *handle == instance,
                None => forall|instance: T| !#[trigger] self.holds(instance),
            },
    {
    }

    /// The instance as a `T`, if that is what the payload holds: what the
    /// downcast of this entry's payload gives. An entry that holds an
    /// instance of `T` gives the handle to that instance.
    pub fn downcast<T: 'static + Send + Sync>(&self) -> (typed: Option<Arc<T>>)
        ensures
            self.downcasts_to(typed),
            match typed {
                Some(handle) => forall|instance: T| #[trigger]
                    self.holds(instance) ==> *handle == instance,
                None => forall|instance: T| !#[trigger] self.holds(instance),
            },
    {
        payload_downcast::<T>(&self.payload)
    }
}

impl Clone for ServiceEntry {
    fn clone(&self) -> (copy: ServiceEntry)
        ensures
            copy == *self,
    {
        ServiceEntry { key: self.key.clone(), payload: payload_share(&self.payload) }
    }
}

/// What a failed cast through a binding reports when the caster's output is
/// not the wrapper of a capability handle.
pub open spec fn wrapper_mismatch() -> ErrorView {
    ErrorView::DowncastFailed { name: "Trait Wrapper Downcast Failed"@ }
}

/// The result of a cast through a binding, given what the caster and the
/// unwrapping returned: `None` where the caster refused the payload,
/// `Some(None)` where its output was not the wrapper of a handle.
pub open spec fn cast_outcome_spec<T: ?Sized>(
    implementation: Seq<char>,
    cast: Option<Option<Arc<T>>>,
    outcome: Result<Arc<T>, MeshestraError>,
) -> bool {
    match cast {
        None => outcome matches Err(e) && e@ == (ErrorView::DowncastFailed {
            name: implementation,
        }),
        Some(None) => outcome matches Err(e) && e@ == wrapper_mismatch(),
        Some(Some(handle)) => outcome == Ok::<Arc<T>, MeshestraError>(handle),
    }
}

/// Turns what the caster and the unwrapping returned into the result of a
/// cast: the handle, or the error that names the step that failed.
pub fn cast_outcome<T: ?Sized>(implementation: &str, cast: Option<Option<Arc<T>>>) -> (outcome:
    Result<Arc<T>, MeshestraError>)
    ensures
        cast_outcome_spec(implementation@, cast, outcome),
{
    match cast {
        None => Err(MeshestraError::downcast_failed(implementation)),
        Some(None) => Err(MeshestraError::downcast_failed("Trait Wrapper Downcast Failed")),
        Some(Some(handle)) => Ok(handle),
    }
}

/// One capability binding: the capability, the concrete identity that
/// satisfies it, and the caster from the one to the other.
pub struct TraitBinding {
    capability: TypeKey,
    implementation: TypeKey,
    caster: Caster,
}

impl TraitBinding {
    /// The abstract capability that is bound.
    pub closed spec fn capability(&self) -> TypeKey {
        self.capability
    }

    /// The concrete identity that satisfies the capability.
    pub closed spec fn implementation(&self) -> TypeKey {
        self.implementation
    }

    /// Whether the caster of the binding is what storing `caster_fn` gave:
    /// run on the payload of an instance of `Impl`, it gives what
    /// `caster_fn` makes of the handle to that instance.
    pub closed spec fn casts_with<Trait, Impl, F>(&self, caster_fn: F) -> bool where
        Trait: ?Sized + 'static + Send + Sync,
        Impl: 'static + Send + Sync,
        F: Fn(Arc<Impl>) -> Arc<Trait> + 'static + Send + Sync,
     {
        &&& call_ensures(caster_of::<Trait, Impl, F>, (caster_fn,), self.caster)
        &&& runs_as::<Trait, Impl, F>(self.caster, caster_fn)
    }

    /// Whether `cast` is what a cast of `entry` through the binding gave:
    /// `None` where the caster, run on the payload of the entry, refused
    /// it; `Some(None)` where the downcast of its output to the wrapper of
    /// a handle on `T` failed; and the handle in the wrapper otherwise.
    pub closed spec fn casts<T: ?Sized + 'static + Send + Sync>(
        &self,
        entry: ServiceEntry,
        cast: Option<Option<Arc<T>>>,
    ) -> bool {
        exists|applied: Option<Payload>| #[trigger]
            call_ensures(caster_apply, (&self.caster, &entry.payload), applied) && match applied {
                None => cast is None,
                Some(wrapped) => exists|unwrapped: Option<Arc<Arc<T>>>| #[trigger]
                    call_ensures(payload_downcast::<Arc<T>>, (&wrapped,), unwrapped) && unwraps(
                        wrapped,
                        unwrapped,
                    ) && cast == Some(
                        match unwrapped {
                            Some(wrapper) => Some(*wrapper),
                            None => None,
                        },
                    ),
            }
    }

    /// A cast of an entry that holds an instance of `Impl`, through a
    /// binding that stores `caster_fn`, succeeds: it gives what `caster_fn`
    /// made of the handle to that instance.
    pub proof fn lemma_cast<Trait, Impl, F>(
        self,
        caster_fn: F,
        entry: ServiceEntry,
        handle: Arc<Impl>,
        outcome: Result<Arc<Trait>, MeshestraError>,
    ) where
        Trait: ?Sized + 'static + Send + Sync,
        Impl: 'static + Send + Sync,
        F: Fn(Arc<Impl>) -> Arc<Trait> + 'static + Send + Sync,

        requires
            self.casts_with::<Trait, Impl, F>(caster_fn),
            entry.holds(*handle),
            self.cast_gives(entry, outcome),
        ensures
            outcome matches Ok(made) && caster_fn.ensures((handle,), made),
    {
        let cast = choose|cast: Option<Option<Arc<Trait>>>|
            self.casts(entry, cast) && cast_outcome_spec(
                self.implementation().label(),
                cast,
                outcome,
            );
        let applied = choose|applied: Option<Payload>|
            call_ensures(caster_apply, (&self.caster, &entry.payload), applied) && match applied {
                None => cast is None,
                Some(wrapped) => exists|unwrapped: Option<Arc<Arc<Trait>>>| #[trigger]
                    call_ensures(payload_downcast::<Arc<Trait>>, (&wrapped,), unwrapped)
                        && unwraps(wrapped, unwrapped) && cast == Some(
                        match unwrapped {
                            Some(wrapper) => Some(*wrapper),
                            None => None,
                        },
                    ),
            };
        assert(call_ensures(payload_of::<Impl>, (*handle,), entry.payload));
        assert(applied is Some);
    }

    /// Binds the capability `Trait` to the concrete type `Impl`, each
    /// labelled with the rendering of its token.
    pub fn new<Trait, Impl, F>(caster_fn: F) -> (binding: TraitBinding) where
        Trait: ?Sized + 'static + Send + Sync,
        Impl: 'static + Send + Sync,
        F: Fn(Arc<Impl>) -> Arc<Trait> + 'static + Send + Sync,

        requires
            forall|handle: Arc<Impl>| caster_fn.requires((handle,)),
        ensures
            binding.capability().stands_for::<Trait>(),
            binding.capability().labelled_by_token(),
            binding.implementation().stands_for::<Impl>(),
            binding.implementation().labelled_by_token(),
            binding.casts_with::<Trait, Impl, F>(caster_fn),
    {
        TraitBinding {
            capability: TypeKey::of::<Trait>(),
            implementation: TypeKey::of::<Impl>(),
            caster: caster_of::<Trait, Impl, F>(caster_fn),
        }
    }

    /// Binds the capability `Trait` to the concrete type `Impl`, each under a
    /// label of the caller's choice.
    pub fn labelled<Trait, Impl, F>(capability: &str, implementation: &str, caster_fn: F) -> (binding:
        TraitBinding) where
        Trait: ?Sized + 'static + Send + Sync,
        Impl: 'static + Send + Sync,
        F: Fn(Arc<Impl>) -> Arc<Trait> + 'static + Send + Sync,

        requires
            forall|handle: Arc<Impl>| caster_fn.requires((handle,)),
        ensures
            binding.capability().stands_for::<Trait>(),
            binding.capability().label() == capability@,
            binding.implementation().stands_for::<Impl>(),
            binding.implementation().label() == implementation@,
            binding.casts_with::<Trait, Impl, F>(caster_fn),
    {
        TraitBinding {
            capability: TypeKey::labelled::<Trait>(capability),
            implementation: TypeKey::labelled::<Impl>(implementation),
            caster: caster_of::<Trait, Impl, F>(caster_fn),
        }
    }

    /// The abstract capability that is bound.
    pub fn bound_capability(&self) -> (key: &TypeKey)
        ensures
            *key == self.capability(),
    {
        &self.capability
    }

    /// The concrete identity that satisfies the capability.
    pub fn target(&self) -> (key: &TypeKey)
        ensures
            *key == self.implementation(),
    {
        &self.implementation
    }

    /// Whether `outcome` is what a cast of `entry` through the binding
    /// returns: what `cast_outcome` makes of what the caster and the
    /// unwrapping gave.
    pub open spec fn cast_gives<T: ?Sized + 'static + Send + Sync>(
        &self,
        entry: ServiceEntry,
        outcome: Result<Arc<T>, MeshestraError>,
    ) -> bool {
        exists|cast: Option<Option<Arc<T>>>| #[trigger]
            self.casts(entry, cast) && cast_outcome_spec(
                self.implementation().label(),
                cast,
                outcome,
            )
    }

    /// Runs the caster on the payload of `entry` and unwraps the capability
    /// handle from its output. The caster and the downcast decide which of
    /// the three outcomes it is; `cast_outcome` says what is returned for
    /// each.
    pub fn cast<T: ?Sized + 'static + Send + Sync>(&self, entry: &ServiceEntry) -> (outcome: Result<
        Arc<T>,
        MeshestraError,
    >)
        ensures
            self.cast_gives(*entry, outcome),
            outcome matches Err(e) ==> e@ == (ErrorView::DowncastFailed {
                name: self.implementation().label(),
            }) || e@ == wrapper_mismatch(),
    {
        let applied = caster_apply(&self.caster, &entry.payload);
        let cast = match applied {
            None => None,
            Some(wrapped) => {
                let unwrapped = payload_downcast::<Arc<T>>(&wrapped);
                match unwrapped {
                    Some(wrapper) => Some(Some(share(&*wrapper))),
                    None => Some(None),
                }
            },
        };
        assert(self.casts(*entry, cast));
        cast_outcome(self.implementation.name(), cast)
    }
}

impl Clone for TraitBinding {
    fn clone(&self) -> (copy: TraitBinding)
        ensures
            copy == *self,
    {
        TraitBinding {
            capability: self.capability.clone(),
            implementation: self.implementation.clone(),
            caster: caster_share(&self.caster),
        }
    }
}

} // verus!
