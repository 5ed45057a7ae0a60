//! Construction of a value from the container.

use crate::text::same_text;
use crate::di::container::Container;
use crate::error::MeshestraError;
use vstd::prelude::*;

verus! {

/// How a field of an injectable struct gets its value.
#[derive(Debug, Clone, Copy, PartialEq, Eq, Structural)]
pub enum FieldInjection {
    /// The field is a `Lazy`: it is resolved on first use.
    Deferred,
    /// The field is a shared handle to a capability: it is resolved through
    /// the binding of the capability.
    Capability,
    /// The field is a shared handle to a concrete type: the type inside the
    /// handle is resolved.
    Shared,
    /// The field is of any other type: that type itself is resolved.
    Direct,
}

impl FieldInjection {
    /// How a field is injected, given the last segment of the path of its
    /// type, whether that segment carries a type argument, and whether the
    /// argument is a trait object.
    pub open spec fn of_spec(wrapper: Seq<char>, has_argument: bool, argument_is_capability: bool) -> FieldInjection {
        if has_argument && wrapper == "Lazy"@ {
            FieldInjection::Deferred
        } else if has_argument && wrapper == "Arc"@ {
            if argument_is_capability {
                FieldInjection::Capability
            } else {
                FieldInjection::Shared
            }
        } else {
            FieldInjection::Direct
        }
    }

    /// How a field is injected, given the last segment of the path of its
    /// type, whether that segment carries a type argument, and whether the
    /// argument is a trait object.
    pub fn of(wrapper: &str, has_argument: bool, argument_is_capability: bool) -> (injection:
        FieldInjection)
        ensures
            injection == Self::of_spec(wrapper@, has_argument, argument_is_capability),
    {
        if has_argument && same_text(wrapper, "Lazy") {
            FieldInjection::Deferred
        } else if has_argument && same_text(wrapper, "Arc") {
            if argument_is_capability {
                FieldInjection::Capability
            } else {
                FieldInjection::Shared
            }
        } else {
            FieldInjection::Direct
        }
    }
}

/// A type that can be built from what a container holds.
pub trait Injectable: Sized + Send + Sync + 'static {
    /// Builds the value by resolving its dependencies from `container`; an
    /// error of a resolution is returned as it is.
    fn inject(container: &Container) -> Result<Self, MeshestraError>;
}

} // verus!
