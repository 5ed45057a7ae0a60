//! The error taxonomy of the container and of the transactional boundary.

use crate::text::prefixed;
use vstd::prelude::*;
use vstd::string::StringExecFns;

verus! {

/// Everything that resolution, registration and transaction handling can
/// report to a caller.
#[derive(Debug, Clone, PartialEq, Eq)]
pub enum MeshestraError {
    /// No registration, or no binding, exists for the requested identity.
    DependencyNotFound { name: String },
    /// An entry was found but its erased payload is not of the expected shape.
    DowncastFailed { name: String },
    /// A dependency cycle was reported.
    CircularDependency { cycle: String },
    /// An operation ran in a transactional scope that its propagation mode forbids.
    ScopeMismatch { message: String },
    /// A module could not register its providers.
    ModuleRegistrationFailed { message: String },
    /// A failure surfaced by a collaborator, such as a transaction manager.
    Internal(String),
}

/// The result of an operation of the container.
pub type Result<T> = std::result::Result<T, MeshestraError>;

/// The mathematical value of a `MeshestraError`: its variant and its text.
pub enum ErrorView {
    DependencyNotFound { name: Seq<char> },
    DowncastFailed { name: Seq<char> },
    CircularDependency { cycle: Seq<char> },
    ScopeMismatch { message: Seq<char> },
    ModuleRegistrationFailed { message: Seq<char> },
    Internal(Seq<char>),
}

impl ErrorView {
    /// The text a user sees for this error.
    pub open spec fn message(self) -> Seq<char> {
        match self {
            ErrorView::DependencyNotFound { name } => "Dependency not found: "@ + name,
            ErrorView::DowncastFailed { name } => "Failed to downcast type: "@ + name,
            ErrorView::CircularDependency { cycle } => "Circular dependency detected: "@ + cycle,
            ErrorView::ScopeMismatch { message } => "Scope mismatch: "@ + message,
            ErrorView::ModuleRegistrationFailed { message } => "Module registration failed: "@
                + message,
            ErrorView::Internal(detail) => "Internal error: "@ + detail,
        }
    }

    /// The body of the HTTP response that reports this error: the bare detail
    /// for an internal error, the full message for every other variant.
    pub open spec fn response_body(self) -> Seq<char> {
        match self {
            ErrorView::Internal(detail) => detail,
            _ => self.message(),
        }
    }
}

impl View for MeshestraError {
    type V = ErrorView;

    open spec fn view(&self) -> ErrorView {
        match self {
            MeshestraError::DependencyNotFound { name } => ErrorView::DependencyNotFound {
                name: name@,
            },
            MeshestraError::DowncastFailed { name } => ErrorView::DowncastFailed {
                name: name@,
            },
            MeshestraError::CircularDependency { cycle } => ErrorView::CircularDependency {
                cycle: cycle@,
            },
            MeshestraError::ScopeMismatch { message } => ErrorView::ScopeMismatch {
                message: message@,
            },
            MeshestraError::ModuleRegistrationFailed { message } => {
                ErrorView::ModuleRegistrationFailed { message: message@ }
            },
            MeshestraError::Internal(detail) => ErrorView::Internal(detail@),
        }
    }
}

/// The status every `MeshestraError` is reported with over HTTP.
pub const INTERNAL_SERVER_ERROR: u16 = 500;

impl MeshestraError {
    /// Builds the error for an identity that has no registration.
    pub fn dependency_not_found(name: &str) -> (e: MeshestraError)
        ensures
            e@ == (ErrorView::DependencyNotFound { name: name@ }),
    {
        MeshestraError::DependencyNotFound { name: String::from_str(name) }
    }

    /// Builds the error for a payload that is not of the expected shape.
    pub fn downcast_failed(name: &str) -> (e: MeshestraError)
        ensures
            e@ == (ErrorView::DowncastFailed { name: name@ }),
    {
        MeshestraError::DowncastFailed { name: String::from_str(name) }
    }

    /// Builds the catch-all error with the given detail.
    pub fn internal(detail: &str) -> (e: MeshestraError)
        ensures
            e@ == ErrorView::Internal(detail@),
    {
        MeshestraError::Internal(String::from_str(detail))
    }

    /// Builds the error for an operation that ran in a scope its
    /// propagation mode forbids.
    pub fn scope_mismatch(message: &str) -> (e: MeshestraError)
        ensures
            e@ == (ErrorView::ScopeMismatch { message: message@ }),
    {
        MeshestraError::ScopeMismatch { message: String::from_str(message) }
    }

    /// The text a user sees for this error.
    pub fn message(&self) -> (text: String)
        ensures
            text@ == self@.message(),
    {
        match self {
            MeshestraError::DependencyNotFound { name } => prefixed(
                "Dependency not found: ",
                name.as_str(),
            ),
            MeshestraError::DowncastFailed { name } => prefixed(
                "Failed to downcast type: ",
                name.as_str(),
            ),
            MeshestraError::CircularDependency { cycle } => prefixed(
                "Circular dependency detected: ",
                cycle.as_str(),
            ),
            MeshestraError::ScopeMismatch { message } => prefixed(
                "Scope mismatch: ",
                message.as_str(),
            ),
            MeshestraError::ModuleRegistrationFailed { message } => prefixed(
                "Module registration failed: ",
                message.as_str(),
            ),
            MeshestraError::Internal(detail) => prefixed("Internal error: ", detail.as_str()),
        }
    }

    /// The status and body of the HTTP response that reports this error.
    pub fn response_parts(&self) -> (parts: (u16, String))
        ensures
            parts.0 == INTERNAL_SERVER_ERROR,
            parts.1@ == self@.response_body(),
    {
        match self {
            MeshestraError::Internal(detail) => (INTERNAL_SERVER_ERROR, detail.clone()),
            _ => (INTERNAL_SERVER_ERROR, self.message()),
        }
    }
}

} // verus!
