//! Meshestra: a dependency-injection container and an ambient
//! transaction-propagation engine, with the rules of both stated as
//! contracts and proved.

pub mod aspect;
pub mod common;
pub mod controller;
pub mod di;
pub mod error;
pub mod exception;
pub mod guard;
pub mod interceptor;
pub mod lifecycle;
pub mod module;
pub mod pipe;
pub mod saga;
mod shared;
pub mod text;
pub mod transactional;

pub use common::ApiResponse;
pub use di::{Container, ContainerBuilder, HasContainer, Inject, Injectable, Lazy};
pub use error::{MeshestraError, Result};
pub use module::Module;
