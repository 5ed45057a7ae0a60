//! Modules: units of registration, and the steps a module is made of.

use crate::di::container::{bound, Container, ContainerView};
use crate::di::entry::{ServiceEntry, TraitBinding};
use crate::di::injectable::Injectable;
use crate::error::MeshestraError;
use std::marker::PhantomData;
use std::sync::Arc;
use vstd::prelude::*;

verus! {

/// A marker that names a provider type, and the capability it is offered
/// as. It carries no data.
pub struct Provider<T: ?Sized>(PhantomData<T>);

impl<T> Provider<T> {
    /// Marks the type of `_provider` as a provider.
    pub fn new<U>(_provider: U) -> Provider<T> {
        Provider(PhantomData)
    }
}

impl<T: ?Sized> Provider<T> {
    /// Offers the provider as the capability `U`.
    pub fn for_trait<U: ?Sized>(&self) -> Provider<U> {
        Provider(PhantomData)
    }
}

/// A unit of registration: it registers its imports, then its providers,
/// then its controllers, each after what it depends on.
pub trait Module {
    /// Registers everything the module provides in `container`.
    fn register(container: &mut Container) -> Result<(), MeshestraError>;
}

/// Whether `built` is what the construction of a `T` from `container` gave.
pub open spec fn built_from<T: Injectable>(container: &Container, built: Result<T, MeshestraError>) -> bool {
    call_ensures(T::inject, (container,), built)
}

/// What providing does, given what the construction gave: a failure is
/// returned as it is and the container is as it was; a success registers
/// one entry.
pub open spec fn provided<T: 'static + Send + Sync>(
    before: ContainerView,
    built: Result<T, MeshestraError>,
    outcome: Result<(), MeshestraError>,
    after: ContainerView,
) -> bool {
    match built {
        Err(error) => outcome == Err::<(), MeshestraError>(error) && after == before,
        Ok(instance) => outcome is Ok && exists|entry: ServiceEntry|
            entry.key().stands_for::<T>() && entry.holds(instance) && after
                == #[trigger] before.with_service(entry),
    }
}

/// What providing under a capability does, given what the construction
/// gave: a failure is returned as it is and the container is as it was; a
/// success registers one entry and then one binding.
pub open spec fn provided_as<Trait, Impl, F>(
    before: ContainerView,
    built: Result<Impl, MeshestraError>,
    caster: F,
    outcome: Result<(), MeshestraError>,
    after: ContainerView,
) -> bool where
    Trait: ?Sized + 'static + Send + Sync,
    Impl: 'static + Send + Sync,
    F: Fn(Arc<Impl>) -> Arc<Trait> + 'static + Send + Sync,
 {
    match built {
        Err(error) => outcome == Err::<(), MeshestraError>(error) && after == before,
        Ok(instance) => outcome is Ok && exists|entry: ServiceEntry, binding: TraitBinding|
            entry.key().stands_for::<Impl>() && entry.holds(instance) && bound::<Trait, Impl, F>(
                binding,
                caster,
            ) && after == #[trigger] before.with_service(entry).with_binding(binding),
    }
}

/// Builds a `T` from what `container` holds and registers it. Where a
/// dependency of `T` is missing, the error of its construction is returned
/// and the container is as it was: a provider has to come after what it
/// depends on. The construction is asked once, of the container as it is
/// given, and it alone decides between the two.
pub fn provide<T: Injectable + 'static + Send + Sync>(container: &mut Container) -> (outcome: Result<
    (),
    MeshestraError,
>)
    ensures
        exists|built: Result<T, MeshestraError>| #[trigger]
            built_from::<T>(&*old(container), built) && provided(
                old(container)@,
                built,
                outcome,
                final(container)@,
            ),
        outcome is Err ==> final(container)@ == old(container)@,
        outcome is Ok ==> exists|entry: ServiceEntry|
            final(container)@ == #[trigger] old(container)@.with_service(entry),
{
    let built = T::inject(container);
    assert(built_from::<T>(&*old(container), built));
    match built {
        Err(error) => Err(error),
        Ok(instance) => {
            container.register(instance);
            Ok(())
        },
    }
}

/// Builds an `Impl` from what `container` holds, registers it, and binds
/// the capability `Trait` to it. Where a dependency of `Impl` is missing,
/// the error of its construction is returned and the container is as it
/// was. The construction is asked once, of the container as it is given,
/// and it alone decides between the two.
pub fn provide_as<Trait, Impl, F>(container: &mut Container, caster: F) -> (outcome: Result<
    (),
    MeshestraError,
>) where
    Trait: ?Sized + 'static + Send + Sync,
    Impl: Injectable + 'static + Send + Sync,
    F: Fn(Arc<Impl>) -> Arc<Trait> + 'static + Send + Sync,

    requires
        forall|handle: Arc<Impl>| caster.requires((handle,)),
    ensures
        exists|built: Result<Impl, MeshestraError>| #[trigger]
            built_from::<Impl>(&*old(container), built) && provided_as::<Trait, Impl, F>(
                old(container)@,
                built,
                caster,
                outcome,
                final(container)@,
            ),
        outcome is Err ==> final(container)@ == old(container)@,
        outcome is Ok ==> exists|entry: ServiceEntry, binding: TraitBinding|
            final(container)@ == #[trigger] old(container)@.with_service(entry).with_binding(
                binding,
            ),
{
    let built = Impl::inject(container);
    assert(built_from::<Impl>(&*old(container), built));
    match built {
        Err(error) => Err(error),
        Ok(instance) => {
            container.register(instance);
            let ghost registered = container@;
            container.register_trait::<Trait, Impl, F>(caster);
            proof {
                let entry = choose|entry: ServiceEntry|
                    entry.key().stands_for::<Impl>() && entry.holds(instance) && registered
                        == old(container)@.with_service(entry);
                let binding = choose|binding: TraitBinding|
                    bound::<Trait, Impl, F>(binding, caster) && container@
                        == registered.with_binding(binding);
                assert(container@ == old(container)@.with_service(entry).with_binding(binding));
            }
            Ok(())
        },
    }
}

/// A container in which the module `M` has registered itself, or the error
/// of the registration: the module is asked once, of a container without
/// registrations, and what it leaves in that container is what is returned.
pub fn create_container<M: Module>() -> (outcome: Result<Container, MeshestraError>)
    ensures
        exists|fresh: &mut Container, registered: Result<(), MeshestraError>|
            {
                &&& fresh@ == ContainerView::empty()
                &&& #[trigger] call_ensures(M::register, (fresh,), registered)
                &&& match registered {
                    Ok(_) => outcome == Ok::<Container, MeshestraError>(*final(fresh)),
                    Err(error) => outcome == Err::<Container, MeshestraError>(error),
                }
            },
{
    let mut container = Container::new();
    match M::register(&mut container) {
        Err(error) => Err(error),
        Ok(_) => Ok(container),
    }
}

} // verus!
