//! The service registry: identities, erased entries, capability bindings and
//! the container that resolves them.

pub mod builder;
pub mod container;
pub mod entry;
pub mod extractor;
pub mod identity;
pub mod injectable;
pub mod laws;
pub mod lazy;
pub mod table;

pub use builder::ContainerBuilder;
pub use container::{Container, ContainerView};
pub use entry::{Caster, Payload, ServiceEntry, TraitBinding};
pub use extractor::{HasContainer, Inject};
pub use identity::TypeKey;
pub use injectable::{FieldInjection, Injectable};
pub use lazy::{kept_or_resolved, Lazy};
