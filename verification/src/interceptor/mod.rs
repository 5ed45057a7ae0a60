//! Interceptors: code that runs around the handling of a request.

pub mod chain;
pub mod logging;

pub use chain::{
    intercept_with, run_chain, Handler, Interceptor, Next, SharedInterceptorLayer,
};
pub use logging::LoggingInterceptor;
