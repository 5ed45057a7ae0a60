//! The pipes that come with the library.

use crate::pipe::{Pipe, PipeError, PipeErrorView};
use vstd::prelude::*;
use vstd::string::StringExecFns;

verus! {

/// What `str::parse::<i32>` gives for a text: the number it denotes, or
/// `None` where it denotes none that fits.
pub uninterp spec fn parsed_i32(text: Seq<char>) -> Option<i32>;

/// Calls `str::parse::<i32>` and drops the reason of a failure.
#[verifier::external_body]
fn parse_i32(text: &str) -> (number: Option<i32>)
    ensures
        number == parsed_i32(text@),
{
    text.parse::<i32>().ok()
}

/// What the integer pipe reports for a text that denotes no integer.
pub open spec fn invalid_integer() -> PipeErrorView {
    PipeErrorView::Validation("Invalid integer"@)
}

/// What the integer pipe gives, given what parsing gave.
pub open spec fn validated_spec(parsed: Option<i32>, outcome: Result<i32, PipeError>) -> bool {
    match parsed {
        Some(number) => outcome == Ok::<i32, PipeError>(number),
        None => outcome matches Err(e) && e@ == invalid_integer(),
    }
}

/// Turns what parsing gave into the result of the integer pipe: the number,
/// or a validation failure.
pub fn validated(parsed: Option<i32>) -> (outcome: Result<i32, PipeError>)
    ensures
        validated_spec(parsed, outcome),
{
    match parsed {
        Some(number) => Ok(number),
        None => Err(PipeError::Validation(String::from_str("Invalid integer"))),
    }
}

/// A pipe from the text of an integer to the integer.
#[derive(Debug, Clone, Copy, Default)]
pub struct ParseIntPipe;

impl Pipe for ParseIntPipe {
    type Input = String;

    type Output = i32;

    fn transform(&self, input: String) -> (outcome: Result<i32, PipeError>)
        ensures
            validated_spec(parsed_i32(input@), outcome),
    {
        validated(parse_i32(input.as_str()))
    }
}

} // verus!
