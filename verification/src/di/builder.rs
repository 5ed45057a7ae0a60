//! Step-by-step construction of a container.

use crate::di::container::{bound, Container, ContainerView};
use crate::di::entry::{ServiceEntry, TraitBinding};
use std::sync::Arc;
use vstd::prelude::*;

verus! {

/// Accumulates registrations, in the order of the calls, and hands over the
/// container they produce.
pub struct ContainerBuilder {
    container: Container,
}

impl View for ContainerBuilder {
    type V = ContainerView;

    closed spec fn view(&self) -> ContainerView {
        self.container@
    }
}

impl ContainerBuilder {
    /// The container under construction is always well formed.
    #[verifier::type_invariant]
    spec fn sound(self) -> bool {
        self.container@.wf()
    }

    /// A builder without registrations.
    pub fn new() -> (builder: ContainerBuilder)
        ensures
            builder@ == ContainerView::empty(),
    {
        ContainerBuilder { container: Container::new() }
    }

    /// Registers `entry` under its own identity.
    pub fn with_entry(self, entry: ServiceEntry) -> (builder: ContainerBuilder)
        ensures
            builder@ == self@.with_service(entry),
    {
        let mut container = self.container;
        container.register_entry(entry);
        ContainerBuilder { container }
    }

    /// Registers `binding` under its own capability.
    pub fn with_binding(self, binding: TraitBinding) -> (builder: ContainerBuilder)
        ensures
            builder@ == self@.with_binding(binding),
    {
        let mut container = self.container;
        container.register_binding(binding);
        ContainerBuilder { container }
    }

    /// Registers `instance` under the identity of `T`, as
    /// `Container::register` does.
    pub fn register<T: 'static + Send + Sync>(self, instance: T) -> (builder: ContainerBuilder)
        ensures
            exists|entry: ServiceEntry|
                entry.key().stands_for::<T>() && entry.holds(instance) && builder@
                    == #[trigger] self@.with_service(entry),
            builder@.holds_instance(instance),
            builder@.bindings == self@.bindings,
    {
        let ghost before = self.container@;
        let mut container = self.container;
        container.register(instance);
        proof {
            let entry = choose|entry: ServiceEntry|
                entry.key().stands_for::<T>() && entry.holds(instance) && container@
                    == before.with_service(entry);
            assert(container@ == self@.with_service(entry));
        }
        ContainerBuilder { container }
    }

    /// Binds the capability `Trait` to the concrete type `Impl`, as
    /// `Container::register_trait` does. The implementation may be registered
    /// before or after.
    pub fn bind<Trait, Impl, F>(self, caster: F) -> (builder: ContainerBuilder) where
        Trait: ?Sized + 'static + Send + Sync,
        Impl: 'static + Send + Sync,
        F: Fn(Arc<Impl>) -> Arc<Trait> + 'static + Send + Sync,

        requires
            forall|handle: Arc<Impl>| caster.requires((handle,)),
        ensures
            exists|binding: TraitBinding|
                bound::<Trait, Impl, F>(binding, caster) && builder@ == #[trigger] self@.with_binding(
                    binding,
                ),
            builder@.binds::<Trait, Impl, F>(caster),
            builder@.services == self@.services,
    {
        let ghost before = self.container@;
        let mut container = self.container;
        container.register_trait::<Trait, Impl, F>(caster);
        proof {
            let binding = choose|binding: TraitBinding|
                bound::<Trait, Impl, F>(binding, caster) && container@ == before.with_binding(
                    binding,
                );
            assert(container@ == self@.with_binding(binding));
        }
        ContainerBuilder { container }
    }

    /// The container that the registrations produced.
    pub fn build(self) -> (container: Container)
        ensures
            container@ == self@,
            container@.wf(),
    {
        proof {
            use_type_invariant(&self);
        }
        self.container
    }
}

impl Default for ContainerBuilder {
    fn default() -> (builder: ContainerBuilder)
        ensures
            builder@ == ContainerView::empty(),
    {
        ContainerBuilder::new()
    }
}

} // verus!
