//! Lifecycle hooks: the order in which services are initialised, started,
//! shut down and destroyed, and what a failing hook does to its phase.

pub mod application;
pub mod error;
pub mod manager;
pub mod traits;

pub use application::{Application, ApplicationBuilder};
pub use error::{LifecycleError, LifecycleErrorView};
pub use manager::{LifecycleManager, Phase};
pub use traits::{OnApplicationBootstrap, OnApplicationShutdown, OnModuleDestroy, OnModuleInit};
