//! Pipes: transformations and validations of a single input.

pub mod builtins;

use crate::text::prefixed;
use vstd::prelude::*;

verus! {

/// Why a pipe refused or failed on its input.
#[derive(Debug, Clone, PartialEq, Eq)]
pub enum PipeError {
    /// The input is not acceptable.
    Validation(String),
    /// The input could not be transformed.
    Transformation(String),
    /// The pipe itself failed.
    Internal(String),
}

/// The mathematical value of a `PipeError`.
pub enum PipeErrorView {
    Validation(Seq<char>),
    Transformation(Seq<char>),
    Internal(Seq<char>),
}

impl PipeErrorView {
    /// The text a user sees for this error.
    pub open spec fn message(self) -> Seq<char> {
        match self {
            PipeErrorView::Validation(detail) => "Validation failed: "@ + detail,
            PipeErrorView::Transformation(detail) => "Transformation failed: "@ + detail,
            PipeErrorView::Internal(detail) => "Internal pipe error: "@ + detail,
        }
    }
}

impl View for PipeError {
    type V = PipeErrorView;

    open spec fn view(&self) -> PipeErrorView {
        match self {
            PipeError::Validation(detail) => PipeErrorView::Validation(detail@),
            PipeError::Transformation(detail) => PipeErrorView::Transformation(detail@),
            PipeError::Internal(detail) => PipeErrorView::Internal(detail@),
        }
    }
}

impl PipeError {
    /// The text a user sees for this error.
    pub fn message(&self) -> (text: String)
        ensures
            text@ == self@.message(),
    {
        match self {
            PipeError::Validation(detail) => prefixed("Validation failed: ", detail.as_str()),
            PipeError::Transformation(detail) => prefixed(
                "Transformation failed: ",
                detail.as_str(),
            ),
            PipeError::Internal(detail) => prefixed("Internal pipe error: ", detail.as_str()),
        }
    }
}

/// A transformation or validation of one input.
pub trait Pipe {
    /// What the pipe takes.
    type Input;

    /// What the pipe gives.
    type Output;

    /// Transforms `input`, or says why it cannot.
    fn transform(&self, input: Self::Input) -> Result<Self::Output, PipeError>;
}

} // verus!
