//! The hooks a service may offer.

use crate::lifecycle::error::LifecycleError;
use vstd::prelude::*;

verus! {

/// Called once the dependencies of a module are resolved, before the
/// application accepts work.
pub trait OnModuleInit {
    /// Initialises the service.
    fn on_module_init(&mut self) -> Result<(), LifecycleError>;
}

/// Called once every module is initialised.
pub trait OnApplicationBootstrap {
    /// Starts what depends on other services being ready.
    fn on_application_bootstrap(&mut self) -> Result<(), LifecycleError>;
}

/// Called when the application is asked to stop, before modules are
/// destroyed.
pub trait OnApplicationShutdown {
    /// Stops taking new work.
    fn on_application_shutdown(&mut self) -> Result<(), LifecycleError>;
}

/// Called last, in the reverse of the order of registration.
pub trait OnModuleDestroy {
    /// Releases what the service holds.
    fn on_module_destroy(&mut self) -> Result<(), LifecycleError>;
}

} // verus!
