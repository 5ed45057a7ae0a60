//! Small operations on text that the messages of the library are built with.

use vstd::prelude::*;
use vstd::string::StringExecFns;

verus! {

/// `prefix` followed by `text`.
pub fn prefixed(prefix: &str, text: &str) -> (out: String)
    ensures
        out@ == prefix@ + text@,
{
    String::from_str(prefix).concat(text)
}

/// Whether two texts are the same.
pub fn same_text(left: &str, right: &str) -> (same: bool)
    ensures
        same == (left@ == right@),
{
    String::from_str(left) == String::from_str(right)
}

} // verus!
