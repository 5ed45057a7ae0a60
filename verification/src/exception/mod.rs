//! Exception filters: how an error that escaped a handler is answered.

pub mod http;

use vstd::prelude::*;

verus! {

/// The context in which an exception is handled.
#[derive(Debug, Clone, Copy, Default)]
pub struct ArgumentsHost {}

/// Turns an error that escaped a handler into a response.
pub trait ExceptionFilter<Error, Response> {
    /// The response for `error`.
    fn catch(&self, error: Error) -> Response;
}

} // verus!
