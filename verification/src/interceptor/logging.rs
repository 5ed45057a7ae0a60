//! The lines that the logging interceptor writes.

use crate::text::prefixed;
use vstd::prelude::*;
use vstd::string::StringExecFns;

verus! {

/// Writes one line when a request arrives and one when it is answered.
#[derive(Debug, Clone, Copy, Default)]
pub struct LoggingInterceptor;

/// The line for a request that arrives.
pub open spec fn arrival_spec(method: Seq<char>, uri: Seq<char>) -> Seq<char> {
    "--> "@ + method + " "@ + uri
}

/// The line for a request that was answered with a response.
pub open spec fn answer_spec(
    method: Seq<char>,
    uri: Seq<char>,
    status: Seq<char>,
    elapsed: Seq<char>,
) -> Seq<char> {
    "<-- "@ + method + " "@ + uri + " "@ + status + " "@ + elapsed
}

/// The line for a request that ended in an error.
pub open spec fn failure_spec(
    method: Seq<char>,
    uri: Seq<char>,
    error: Seq<char>,
    elapsed: Seq<char>,
) -> Seq<char> {
    "<-- "@ + method + " "@ + uri + " ERROR: "@ + error + " "@ + elapsed
}

impl LoggingInterceptor {
    /// The line for a request that arrives.
    pub fn arrival(&self, method: &str, uri: &str) -> (line: String)
        ensures
            line@ == arrival_spec(method@, uri@),
    {
        let line = prefixed("--> ", method).concat(" ").concat(uri);
        assert(line@ =~= arrival_spec(method@, uri@));
        line
    }

    /// The line for a request that was answered with a response.
    pub fn answer(&self, method: &str, uri: &str, status: &str, elapsed: &str) -> (line: String)
        ensures
            line@ == answer_spec(method@, uri@, status@, elapsed@),
    {
        let line = prefixed("<-- ", method).concat(" ").concat(uri).concat(" ").concat(
            status,
        ).concat(" ").concat(elapsed);
        assert(line@ =~= answer_spec(method@, uri@, status@, elapsed@));
        line
    }

    /// The line for a request that ended in an error.
    pub fn failure(&self, method: &str, uri: &str, error: &str, elapsed: &str) -> (line: String)
        ensures
            line@ == failure_spec(method@, uri@, error@, elapsed@),
    {
        let line = prefixed("<-- ", method).concat(" ").concat(uri).concat(" ERROR: ").concat(
            error,
        ).concat(" ").concat(elapsed);
        assert(line@ =~= failure_spec(method@, uri@, error@, elapsed@));
        line
    }
}

} // verus!
