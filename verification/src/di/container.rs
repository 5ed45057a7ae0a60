//! The container: one table of instances, one table of capability bindings,
//! and the two ways of resolving through them.

use crate::di::entry::{ServiceEntry, TraitBinding};
use crate::di::identity::{token_of, TypeKey};
use crate::di::table::{
    records, table_contains, table_get, table_ids, table_insert, table_is_empty, table_len,
    table_new, Record,
};
use crate::error::{ErrorView, MeshestraError};
use crate::text::prefixed;
use dashmap::DashMap;
use std::any::TypeId;
use std::sync::Arc;
use vstd::prelude::*;
use vstd::string::StringExecFns;

verus! {

/// The mathematical value of a container: which entry stands under each
/// concrete identity, and which binding under each capability.
pub struct ContainerView {
    pub services: Map<TypeId, ServiceEntry>,
    pub bindings: Map<TypeId, TraitBinding>,
}

impl ContainerView {
    /// The container without registrations.
    pub open spec fn empty() -> ContainerView {
        ContainerView { services: Map::empty(), bindings: Map::empty() }
    }

    /// Every record stands under its own identity, and there are finitely many.
    pub open spec fn wf(self) -> bool {
        &&& self.services.dom().finite()
        &&& self.bindings.dom().finite()
        &&& forall|id: TypeId| #[trigger]
            self.services.contains_key(id) ==> self.services[id].key().id() == id
        &&& forall|id: TypeId| #[trigger]
            self.bindings.contains_key(id) ==> self.bindings[id].capability().id() == id
    }

    /// The container after `entry` is registered: it replaces any entry of
    /// the same identity and touches nothing else.
    pub open spec fn with_service(self, entry: ServiceEntry) -> ContainerView {
        ContainerView { services: self.services.insert(entry.key().id(), entry), ..self }
    }

    /// The container after `binding` is registered: it replaces any binding
    /// of the same capability and touches nothing else.
    pub open spec fn with_binding(self, binding: TraitBinding) -> ContainerView {
        ContainerView {
            bindings: self.bindings.insert(binding.capability().id(), binding),
            ..self
        }
    }

    /// Whether the entry registered for the type `T` holds `instance`.
    pub open spec fn holds_instance<T: 'static + Send + Sync>(self, instance: T) -> bool {
        self.services.contains_key(token_of::<T>()) && self.services[token_of::<T>()].holds(
            instance,
        )
    }

    /// Whether the binding registered for the capability `Trait` binds it
    /// to `Impl` and stores `caster_fn` as its caster.
    pub open spec fn binds<Trait, Impl, F>(self, caster_fn: F) -> bool where
        Trait: ?Sized + 'static + Send + Sync,
        Impl: 'static + Send + Sync,
        F: Fn(Arc<Impl>) -> Arc<Trait> + 'static + Send + Sync,
     {
        self.bindings.contains_key(token_of::<Trait>()) && bound::<Trait, Impl, F>(
            self.bindings[token_of::<Trait>()],
            caster_fn,
        )
    }

    /// Whether `labels` lists the registered instances in the order of
    /// `order`, which names each registered identity once and no other:
    /// the label at a place is the label of the instance registered under
    /// the identity at that place.
    pub open spec fn listed_in(self, order: Seq<TypeId>, labels: Seq<String>) -> bool {
        &&& order.no_duplicates()
        &&& order.to_set() == self.services.dom()
        &&& labels.len() == order.len()
        &&& forall|i: int|
            0 <= i < order.len() ==> (#[trigger] labels[i])@ == self.services[order[i]].key().label()
    }

    /// Whether some registered instance carries `label`.
    pub open spec fn has_label(self, label: Seq<char>) -> bool {
        exists|id: TypeId|
            self.services.contains_key(id) && #[trigger] self.services[id].key().label() == label
    }

    /// Whether anything is registered under `id`, as an instance or as a
    /// capability.
    pub open spec fn knows(self, id: TypeId) -> bool {
        self.services.contains_key(id) || self.bindings.contains_key(id)
    }

    /// The entry that resolving the concrete identity `id` yields.
    pub open spec fn service(self, id: TypeId) -> Option<ServiceEntry> {
        if self.services.contains_key(id) {
            Some(self.services[id])
        } else {
            None
        }
    }

    /// The binding of the capability `id` together with the entry of its
    /// implementation, where both exist.
    pub open spec fn bound_service(self, id: TypeId) -> Option<(TraitBinding, ServiceEntry)> {
        if self.bindings.contains_key(id) && self.services.contains_key(
            self.bindings[id].implementation().id(),
        ) {
            Some((self.bindings[id], self.services[self.bindings[id].implementation().id()]))
        } else {
            None
        }
    }

    /// What resolving the concrete identity of `key` returns.
    pub open spec fn resolves_entry(
        self,
        key: TypeKey,
        outcome: Result<ServiceEntry, MeshestraError>,
    ) -> bool {
        match self.service(key.id()) {
            Some(entry) => outcome == Ok::<ServiceEntry, MeshestraError>(entry),
            None => outcome matches Err(e) && e@ == (ErrorView::DependencyNotFound {
                name: key.label(),
            }),
        }
    }

    /// What resolving the capability of `key` returns: the binding and the
    /// entry of its implementation, or the error that tells a capability
    /// without binding from a binding without implementation.
    pub open spec fn resolves_binding(
        self,
        key: TypeKey,
        outcome: Result<(TraitBinding, ServiceEntry), MeshestraError>,
    ) -> bool {
        if !self.bindings.contains_key(key.id()) {
            outcome matches Err(e) && e@ == unknown_capability()
        } else {
            match self.bound_service(key.id()) {
                Some(pair) => outcome == Ok::<(TraitBinding, ServiceEntry), MeshestraError>(pair),
                None => outcome matches Err(e) && e@ == missing_implementation(key.label()),
            }
        }
    }

    /// What a typed resolution of the concrete identity of `key` returns:
    /// the miss where nothing is registered, and otherwise what
    /// `typed_outcome` makes of what the downcast of the registered entry
    /// gave.
    pub open spec fn resolves_typed<T: 'static + Send + Sync>(
        self,
        key: TypeKey,
        outcome: Result<Arc<T>, MeshestraError>,
    ) -> bool {
        match self.service(key.id()) {
            Some(entry) => exists|typed: Option<Arc<T>>| #[trigger]
                entry.downcasts_to(typed) && typed_spec(key, typed, outcome),
            None => outcome matches Err(e) && e@ == (ErrorView::DependencyNotFound {
                name: key.label(),
            }),
        }
    }

    /// What a typed resolution of the capability of `key` returns: the two
    /// misses as in `resolves_binding`, and otherwise what the cast of the
    /// registered entry through the registered binding gives.
    pub open spec fn resolves_capability<T: ?Sized + 'static + Send + Sync>(
        self,
        key: TypeKey,
        outcome: Result<Arc<T>, MeshestraError>,
    ) -> bool {
        if !self.bindings.contains_key(key.id()) {
            outcome matches Err(e) && e@ == unknown_capability()
        } else {
            match self.bound_service(key.id()) {
                Some(pair) => pair.0.cast_gives(pair.1, outcome),
                None => outcome matches Err(e) && e@ == missing_implementation(key.label()),
            }
        }
    }
}

/// Whether `binding` binds a key that stands for `Trait` to a key that
/// stands for `Impl`, with `caster_fn` stored as its caster.
pub open spec fn bound<Trait, Impl, F>(binding: TraitBinding, caster_fn: F) -> bool where
    Trait: ?Sized + 'static + Send + Sync,
    Impl: 'static + Send + Sync,
    F: Fn(Arc<Impl>) -> Arc<Trait> + 'static + Send + Sync,
 {
    &&& binding.capability().stands_for::<Trait>()
    &&& binding.implementation().stands_for::<Impl>()
    &&& binding.casts_with::<Trait, Impl, F>(caster_fn)
}

/// What resolving a capability without binding reports.
pub open spec fn unknown_capability() -> ErrorView {
    ErrorView::DependencyNotFound { name: "Unknown Trait"@ }
}

/// What resolving a capability reports whose binding is registered and
/// whose implementation is not: the label of the capability, marked as a
/// missing implementation.
pub open spec fn missing_implementation(label: Seq<char>) -> ErrorView {
    ErrorView::DependencyNotFound { name: "Implementation of "@ + label }
}

/// The result of a typed resolution, given what the downcast of the found
/// entry gave: the handle, or `DowncastFailed` under the label of `key`.
pub open spec fn typed_spec<T>(
    key: TypeKey,
    typed: Option<Arc<T>>,
    outcome: Result<Arc<T>, MeshestraError>,
) -> bool {
    match typed {
        Some(handle) => outcome == Ok::<Arc<T>, MeshestraError>(handle),
        None => outcome matches Err(e) && e@ == (ErrorView::DowncastFailed { name: key.label() }),
    }
}

/// Turns the downcast of a found entry into the result of a typed
/// resolution: the handle, or `DowncastFailed` under the label of `key`.
pub fn typed_outcome<T>(key: &TypeKey, typed: Option<Arc<T>>) -> (outcome: Result<
    Arc<T>,
    MeshestraError,
>)
    ensures
        typed_spec(*key, typed, outcome),
{
    match typed {
        Some(handle) => Ok(handle),
        None => Err(MeshestraError::downcast_failed(key.name())),
    }
}

/// A registry of shared service instances, keyed by identity, with a table
/// that binds capabilities to the identities that implement them.
pub struct Container {
    services: DashMap<TypeId, Record>,
    bindings: DashMap<TypeId, Record>,
}

/// The instances among the given records, each under its identity.
spec fn services_of(held: Map<TypeId, Record>) -> Map<TypeId, ServiceEntry> {
    Map::new(|id: TypeId| held.contains_key(id), |id: TypeId| held[id]->Service_0)
}

/// The bindings among the given records, each under its capability.
spec fn bindings_of(held: Map<TypeId, Record>) -> Map<TypeId, TraitBinding> {
    Map::new(|id: TypeId| held.contains_key(id), |id: TypeId| held[id]->Binding_0)
}

/// The records are finitely many instances, each under its own identity.
spec fn holds_services(held: Map<TypeId, Record>) -> bool {
    &&& held.dom().finite()
    &&& forall|id: TypeId| #[trigger]
        held.contains_key(id) ==> held[id] is Service && held[id]->Service_0.key().id() == id
}

/// The records are finitely many bindings, each under its own capability.
spec fn holds_bindings(held: Map<TypeId, Record>) -> bool {
    &&& held.dom().finite()
    &&& forall|id: TypeId| #[trigger]
        held.contains_key(id) ==> held[id] is Binding && held[id]->Binding_0.capability().id()
            == id
}

/// Records that are instances read as instances: same identities, same
/// count, each entry under its identity.
proof fn lemma_services(held: Map<TypeId, Record>)
    requires
        holds_services(held),
    ensures
        services_of(held).dom() == held.dom(),
        services_of(held).dom().finite(),
        services_of(held).len() == held.len(),
        forall|id: TypeId| #[trigger]
            held.contains_key(id) ==> services_of(held)[id] == held[id]->Service_0
                && services_of(held)[id].key().id() == id,
{
    assert(services_of(held).dom() =~= held.dom());
}

/// Records that are bindings read as bindings: same identities, each
/// binding under its capability.
proof fn lemma_bindings(held: Map<TypeId, Record>)
    requires
        holds_bindings(held),
    ensures
        bindings_of(held).dom() == held.dom(),
        bindings_of(held).dom().finite(),
        forall|id: TypeId| #[trigger]
            held.contains_key(id) ==> bindings_of(held)[id] == held[id]->Binding_0
                && bindings_of(held)[id].capability().id() == id,
{
    assert(bindings_of(held).dom() =~= held.dom());
}

/// Inserting an instance under its identity keeps a table of instances
/// one, and reads as the insertion of the entry.
proof fn lemma_insert_service(held: Map<TypeId, Record>, entry: ServiceEntry)
    requires
        holds_services(held),
    ensures
        holds_services(held.insert(entry.key().id(), Record::Service(entry))),
        services_of(held.insert(entry.key().id(), Record::Service(entry))) == services_of(
            held,
        ).insert(entry.key().id(), entry),
{
    let after = held.insert(entry.key().id(), Record::Service(entry));
    assert(services_of(after) =~= services_of(held).insert(entry.key().id(), entry));
}

/// Inserting a binding under its capability keeps a table of bindings one,
/// and reads as the insertion of the binding.
proof fn lemma_insert_binding(held: Map<TypeId, Record>, binding: TraitBinding)
    requires
        holds_bindings(held),
    ensures
        holds_bindings(held.insert(binding.capability().id(), Record::Binding(binding))),
        bindings_of(held.insert(binding.capability().id(), Record::Binding(binding)))
            == bindings_of(held).insert(binding.capability().id(), binding),
{
    let after = held.insert(binding.capability().id(), Record::Binding(binding));
    assert(bindings_of(after) =~= bindings_of(held).insert(binding.capability().id(), binding));
}

impl View for Container {
    type V = ContainerView;

    closed spec fn view(&self) -> ContainerView {
        ContainerView {
            services: services_of(records(self.services)),
            bindings: bindings_of(records(self.bindings)),
        }
    }
}

impl Container {
    /// The table of instances holds instances only, the table of bindings
    /// bindings only, and every record stands under its own identity.
    #[verifier::type_invariant]
    spec fn well_formed(self) -> bool {
        &&& holds_services(records(self.services))
        &&& holds_bindings(records(self.bindings))
    }

    /// What the invariant says of the view.
    proof fn lemma_view(&self)
        requires
            self.well_formed(),
        ensures
            self@.wf(),
            self@.services.dom() == records(self.services).dom(),
            self@.bindings.dom() == records(self.bindings).dom(),
            self@.services.len() == records(self.services).len(),
            forall|id: TypeId| #[trigger]
                records(self.services).contains_key(id) ==> self@.services[id] == records(
                    self.services,
                )[id]->Service_0,
            forall|id: TypeId| #[trigger]
                records(self.bindings).contains_key(id) ==> self@.bindings[id] == records(
                    self.bindings,
                )[id]->Binding_0,
    {
        lemma_services(records(self.services));
        lemma_bindings(records(self.bindings));
    }

    /// A container without registrations.
    pub fn new() -> (container: Container)
        ensures
            container@ == ContainerView::empty(),
            container@.wf(),
    {
        let container = Container { services: table_new(), bindings: table_new() };
        proof {
            container.lemma_view();
            assert(container@.services =~= Map::<TypeId, ServiceEntry>::empty());
            assert(container@.bindings =~= Map::<TypeId, TraitBinding>::empty());
        }
        container
    }

    /// Registers `entry` under its own identity, in place of any entry of
    /// that identity.
    pub fn register_entry(&mut self, entry: ServiceEntry) -> (this: &mut Container)
        ensures
            this@ == old(self)@.with_service(entry),
            this@.wf(),
            *final(self) == *final(this),
    {
        proof {
            use_type_invariant(&*self);
            lemma_insert_service(records(self.services), entry);
        }
        let id = entry.identity().token();
        let _displaced = table_insert(&mut self.services, id, Record::Service(entry));
        proof {
            self.lemma_view();
        }
        self
    }

    /// Registers `binding` under its own capability, in place of any binding
    /// of that capability. The implementation need not be registered yet.
    pub fn register_binding(&mut self, binding: TraitBinding) -> (this: &mut Container)
        ensures
            this@ == old(self)@.with_binding(binding),
            this@.wf(),
            *final(self) == *final(this),
    {
        proof {
            use_type_invariant(&*self);
            lemma_insert_binding(records(self.bindings), binding);
        }
        let id = binding.bound_capability().token();
        let _displaced = table_insert(&mut self.bindings, id, Record::Binding(binding));
        proof {
            self.lemma_view();
        }
        self
    }

    /// Registers `instance` under the identity of `T`: an entry that holds
    /// the instance, under a key that stands for `T`, is registered as
    /// `register_entry` does, in place of any entry registered for `T`
    /// before.
    pub fn register<T: 'static + Send + Sync>(&mut self, instance: T) -> (this: &mut Container)
        ensures
            exists|entry: ServiceEntry|
                entry.key().stands_for::<T>() && entry.holds(instance) && this@
                    == #[trigger] old(self)@.with_service(entry),
            this@.holds_instance(instance),
            this@.services.dom() == old(self)@.services.dom().insert(token_of::<T>()),
            this@.bindings == old(self)@.bindings,
            this@.wf(),
            *final(self) == *final(this),
    {
        let entry = ServiceEntry::new(instance);
        self.register_entry(entry)
    }

    /// Binds the capability `Trait` to the concrete type `Impl`, with the
    /// caster from the one to the other: a binding that holds the caster,
    /// from a key that stands for `Trait` to a key that stands for `Impl`,
    /// is registered as `register_binding` does, in place of any binding of
    /// `Trait` registered before. The implementation need not be
    /// registered yet.
    pub fn register_trait<Trait, Impl, F>(&mut self, caster_fn: F) -> (this: &mut Container) where
        Trait: ?Sized + 'static + Send + Sync,
        Impl: 'static + Send + Sync,
        F: Fn(Arc<Impl>) -> Arc<Trait> + 'static + Send + Sync,

        requires
            forall|handle: Arc<Impl>| caster_fn.requires((handle,)),
        ensures
            exists|binding: TraitBinding|
                bound::<Trait, Impl, F>(binding, caster_fn) && this@ == #[trigger] old(
                    self,
                )@.with_binding(binding),
            this@.binds::<Trait, Impl, F>(caster_fn),
            this@.bindings.dom() == old(self)@.bindings.dom().insert(token_of::<Trait>()),
            this@.services == old(self)@.services,
            this@.wf(),
            *final(self) == *final(this),
    {
        let binding = TraitBinding::new::<Trait, Impl, F>(caster_fn);
        self.register_binding(binding)
    }

    /// The entry registered under the identity of `key`, or
    /// `DependencyNotFound` with the key's label where there is none.
    pub fn resolve_entry(&self, key: &TypeKey) -> (outcome: Result<ServiceEntry, MeshestraError>)
        ensures
            self@.resolves_entry(*key, outcome),
            outcome matches Ok(entry) ==> entry.key().id() == key.id(),
    {
        proof {
            use_type_invariant(self);
            self.lemma_view();
        }
        let id = key.token();
        match table_get(&self.services, &id) {
            Some(Record::Service(entry)) => Ok(entry),
            _ => Err(MeshestraError::dependency_not_found(key.name())),
        }
    }

    /// The binding of the capability of `key` with the entry of its
    /// implementation. Without a binding the error names an unknown
    /// capability; with a binding whose implementation is not registered it
    /// names the implementation of the key's label as missing. The two
    /// never read the same.
    pub fn resolve_binding(&self, key: &TypeKey) -> (outcome: Result<
        (TraitBinding, ServiceEntry),
        MeshestraError,
    >)
        ensures
            self@.resolves_binding(*key, outcome),
            outcome matches Ok(pair) ==> pair.0.capability().id() == key.id() && pair.1.key().id()
                == pair.0.implementation().id(),
    {
        proof {
            use_type_invariant(self);
            self.lemma_view();
        }
        let id = key.token();
        match table_get(&self.bindings, &id) {
            Some(Record::Binding(binding)) => {
                let target = binding.target().token();
                match table_get(&self.services, &target) {
                    Some(Record::Service(entry)) => Ok((binding, entry)),
                    _ => Err(
                        MeshestraError::DependencyNotFound {
                            name: prefixed("Implementation of ", key.name()),
                        },
                    ),
                }
            },
            _ => Err(MeshestraError::dependency_not_found("Unknown Trait")),
        }
    }

    /// The instance registered for the concrete type `T`: the result of a
    /// typed resolution under a key that stands for `T`. Where an entry
    /// registered for `T` holds an instance, the handle to that instance is
    /// returned; where nothing is registered for `T`, the dependency is
    /// reported as not found.
    pub fn resolve<T: 'static + Send + Sync>(&self) -> (outcome: Result<Arc<T>, MeshestraError>)
        ensures
            exists|key: TypeKey|
                key.stands_for::<T>() && #[trigger] self@.resolves_typed(key, outcome),
            forall|instance: T| #[trigger]
                self@.holds_instance(instance) ==> (outcome matches Ok(handle) && *handle
                    == instance),
            !self@.services.contains_key(token_of::<T>()) ==> (outcome matches Err(e) && e@
                is DependencyNotFound),
    {
        let key = TypeKey::of::<T>();
        self.resolve_as::<T>(&key)
    }

    /// The instance registered under the identity of `key`, as a `T`:
    /// `DependencyNotFound` where nothing is registered, `DowncastFailed`
    /// where the payload is no `T`, both under the key's label.
    pub fn resolve_as<T: 'static + Send + Sync>(&self, key: &TypeKey) -> (outcome: Result<
        Arc<T>,
        MeshestraError,
    >)
        ensures
            self@.resolves_typed(*key, outcome),
            forall|instance: T|
                (self@.services.contains_key(key.id()) && #[trigger] self@.services[key.id()].holds(
                    instance,
                )) ==> (outcome matches Ok(handle) && *handle == instance),
    {
        match self.resolve_entry(key) {
            Err(e) => Err(e),
            Ok(entry) => {
                let typed = entry.downcast::<T>();
                let outcome = typed_outcome(key, typed);
                assert(entry.downcasts_to(typed) && typed_spec(*key, typed, outcome));
                outcome
            },
        }
    }

    /// The handle of the capability `T`: the result of a capability
    /// resolution under a key that stands for `T`. Where no binding of `T`
    /// is registered, or none of its implementation, the dependency is
    /// reported as not found.
    pub fn resolve_trait<T: ?Sized + 'static + Send + Sync>(&self) -> (outcome: Result<
        Arc<T>,
        MeshestraError,
    >)
        ensures
            exists|key: TypeKey|
                key.stands_for::<T>() && #[trigger] self@.resolves_capability(key, outcome),
            self@.bound_service(token_of::<T>()) is None ==> (outcome matches Err(e) && e@
                is DependencyNotFound),
    {
        let key = TypeKey::of::<T>();
        self.resolve_trait_as::<T>(&key)
    }

    /// The handle of the capability of `key`, as a `T`: the two misses of
    /// `resolve_binding`, or `DowncastFailed` where the cast through the
    /// binding fails.
    pub fn resolve_trait_as<T: ?Sized + 'static + Send + Sync>(&self, key: &TypeKey) -> (outcome:
        Result<Arc<T>, MeshestraError>)
        ensures
            self@.resolves_capability(*key, outcome),
    {
        match self.resolve_binding(key) {
            Err(e) => Err(e),
            Ok((binding, entry)) => binding.cast::<T>(&entry),
        }
    }

    /// Whether anything is registered under the identity of `key`, as an
    /// instance or as a capability.
    pub fn contains_key(&self, key: &TypeKey) -> (present: bool)
        ensures
            present == self@.knows(key.id()),
    {
        proof {
            use_type_invariant(self);
            self.lemma_view();
        }
        let id = key.token();
        table_contains(&self.services, &id) || table_contains(&self.bindings, &id)
    }

    /// Whether anything is registered for `T`, as an instance or as a
    /// capability.
    pub fn contains<T: ?Sized + 'static>(&self) -> (present: bool)
        ensures
            present == self@.knows(token_of::<T>()),
    {
        let key = TypeKey::of::<T>();
        self.contains_key(&key)
    }

    /// The labels of the registered instances: each registered instance is
    /// listed once, by its label, and nothing else is listed. The order is
    /// that in which the table hands out its identities, which is not fixed.
    pub fn dump_services(&self) -> (labels: Vec<String>)
        ensures
            exists|order: Seq<TypeId>| #[trigger] self@.listed_in(order, labels@),
            labels@.len() == self@.services.len(),
            forall|i: int| 0 <= i < labels@.len() ==> #[trigger] self@.has_label(labels@[i]@),
    {
        proof {
            use_type_invariant(self);
            self.lemma_view();
        }
        let ids = table_ids(&self.services);
        proof {
            ids@.unique_seq_to_set();
        }
        let mut labels: Vec<String> = Vec::new();
        let mut index: usize = 0;
        while index < ids.len()
            invariant
                index <= ids@.len(),
                labels@.len() == index,
                ids@.to_set() == self@.services.dom(),
                self@.wf(),
                self@.services.dom() == records(self.services).dom(),
                forall|id: TypeId| #[trigger]
                    records(self.services).contains_key(id) ==> records(self.services)[id]
                        is Service && self@.services[id] == records(
                        self.services,
                    )[id]->Service_0,
                forall|i: int|
                    0 <= i < labels@.len() ==> #[trigger] self@.has_label(labels@[i]@),
                forall|i: int|
                    0 <= i < labels@.len() ==> (#[trigger] labels@[i])@
                        == self@.services[ids@[i]].key().label(),
            decreases ids@.len() - index,
        {
            let id = ids[index];
            assert(ids@.to_set().contains(ids@[index as int]));
            match table_get(&self.services, &id) {
                Some(Record::Service(entry)) => {
                    let label = String::from_str(entry.identity().name());
                    let ghost before = labels@;
                    labels.push(label);
                    assert(self@.services[id].key().label() == labels@[index as int]@);
                    assert forall|i: int| 0 <= i < labels@.len() implies #[trigger] self@.has_label(
                        labels@[i]@,
                    ) by {
                        if i < index {
                            assert(labels@[i] == before[i]);
                            assert(self@.has_label(before[i]@));
                        }
                    }
                },
                _ => {
                    assert(false);
                },
            }
            index = index + 1;
        }
        assert(self@.listed_in(ids@, labels@));
        labels
    }

    /// The number of registered instances; bindings are not counted.
    pub fn len(&self) -> (count: usize)
        ensures
            count == self@.services.len(),
            self@.wf(),
    {
        proof {
            use_type_invariant(self);
            self.lemma_view();
        }
        table_len(&self.services)
    }

    /// Whether no instance is registered.
    pub fn is_empty(&self) -> (empty: bool)
        ensures
            empty == (self@.services.len() == 0),
    {
        proof {
            use_type_invariant(self);
            self.lemma_view();
            if self@.services.len() == 0 {
                self@.services.dom().lemma_len0_is_empty();
                assert(records(self.services) =~= Map::<TypeId, Record>::empty());
            }
        }
        table_is_empty(&self.services)
    }
}

impl Default for Container {
    fn default() -> (container: Container)
        ensures
            container@ == ContainerView::empty(),
    {
        Container::new()
    }
}

} // verus!
