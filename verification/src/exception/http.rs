//! The filter that answers every error with a server error.

use crate::error::{MeshestraError, INTERNAL_SERVER_ERROR};
use crate::exception::ExceptionFilter;
use vstd::prelude::*;
use vstd::string::StringExecFns;

verus! {

/// Answers every error with status 500: with the error's message where it
/// is one of the library's, with a fixed text where it is not.
#[derive(Debug, Clone, Copy, Default)]
pub struct HttpExceptionFilter;

/// The body for an error that is none of the library's.
pub open spec fn opaque_failure() -> Seq<char> {
    "Internal Server Error"@
}

impl HttpExceptionFilter {
    /// The status and message for an error: `known` is the error where it
    /// is one of the library's, `None` where it is of another kind.
    pub fn describe(&self, known: Option<&MeshestraError>) -> (answer: (u16, String))
        ensures
            answer.0 == INTERNAL_SERVER_ERROR,
            answer.1@ == match known {
                Some(error) => error@.message(),
                None => opaque_failure(),
            },
    {
        match known {
            Some(error) => (INTERNAL_SERVER_ERROR, error.message()),
            None => (INTERNAL_SERVER_ERROR, String::from_str("Internal Server Error")),
        }
    }
}

impl ExceptionFilter<MeshestraError, (u16, String)> for HttpExceptionFilter {
    fn catch(&self, error: MeshestraError) -> (answer: (u16, String))
        ensures
            answer.0 == INTERNAL_SERVER_ERROR,
            answer.1@ == error@.message(),
    {
        self.describe(Some(&error))
    }
}

} // verus!
