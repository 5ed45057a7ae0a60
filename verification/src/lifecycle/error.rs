//! Errors of the lifecycle phases.

use crate::text::prefixed;
use vstd::prelude::*;
use vstd::string::StringExecFns;

verus! {

/// What can go wrong while hooks run.
#[derive(Debug, Clone, PartialEq, Eq)]
pub enum LifecycleError {
    /// A service could not be initialised.
    InitializationFailed(String),
    /// A shutdown step failed.
    ShutdownFailed(String),
    /// A phase took longer than it was given.
    Timeout {
        /// The phase that ran out of time.
        phase: String,
        /// What is known about it.
        message: String,
    },
    /// A hook returned an error.
    HookFailed {
        /// The name the failing service was registered under.
        service: String,
        /// The message of its error.
        message: String,
    },
}

/// The mathematical value of a `LifecycleError`.
pub enum LifecycleErrorView {
    InitializationFailed(Seq<char>),
    ShutdownFailed(Seq<char>),
    Timeout { phase: Seq<char>, message: Seq<char> },
    HookFailed { service: Seq<char>, message: Seq<char> },
}

impl LifecycleErrorView {
    /// The text a user sees for this error.
    pub open spec fn message(self) -> Seq<char> {
        match self {
            LifecycleErrorView::InitializationFailed(detail) => "Initialization failed: "@ + detail,
            LifecycleErrorView::ShutdownFailed(detail) => "Shutdown failed: "@ + detail,
            LifecycleErrorView::Timeout { phase, message } => "Timeout during "@ + phase + ": "@
                + message,
            LifecycleErrorView::HookFailed { service, message } => "Hook execution failed for "@
                + service + ": "@ + message,
        }
    }
}

impl View for LifecycleError {
    type V = LifecycleErrorView;

    open spec fn view(&self) -> LifecycleErrorView {
        match self {
            LifecycleError::InitializationFailed(detail) => {
                LifecycleErrorView::InitializationFailed(detail@)
            },
            LifecycleError::ShutdownFailed(detail) => LifecycleErrorView::ShutdownFailed(detail@),
            LifecycleError::Timeout { phase, message } => LifecycleErrorView::Timeout {
                phase: phase@,
                message: message@,
            },
            LifecycleError::HookFailed { service, message } => LifecycleErrorView::HookFailed {
                service: service@,
                message: message@,
            },
        }
    }
}

impl LifecycleError {
    /// An initialisation failure with the given detail.
    pub fn init_failed(msg: &str) -> (error: LifecycleError)
        ensures
            error@ == LifecycleErrorView::InitializationFailed(msg@),
    {
        LifecycleError::InitializationFailed(String::from_str(msg))
    }

    /// A shutdown failure with the given detail.
    pub fn shutdown_failed(msg: &str) -> (error: LifecycleError)
        ensures
            error@ == LifecycleErrorView::ShutdownFailed(msg@),
    {
        LifecycleError::ShutdownFailed(String::from_str(msg))
    }

    /// A timeout of the given phase.
    pub fn timeout(phase: &str, message: &str) -> (error: LifecycleError)
        ensures
            error@ == (LifecycleErrorView::Timeout { phase: phase@, message: message@ }),
    {
        LifecycleError::Timeout {
            phase: String::from_str(phase),
            message: String::from_str(message),
        }
    }

    /// The failure of the hook of the given service.
    pub fn hook_failed(service: &str, message: &str) -> (error: LifecycleError)
        ensures
            error@ == (LifecycleErrorView::HookFailed { service: service@, message: message@ }),
    {
        LifecycleError::HookFailed {
            service: String::from_str(service),
            message: String::from_str(message),
        }
    }

    /// The text a user sees for this error.
    pub fn message(&self) -> (text: String)
        ensures
            text@ == self@.message(),
    {
        match self {
            LifecycleError::InitializationFailed(detail) => prefixed(
                "Initialization failed: ",
                detail.as_str(),
            ),
            LifecycleError::ShutdownFailed(detail) => prefixed(
                "Shutdown failed: ",
                detail.as_str(),
            ),
            LifecycleError::Timeout { phase, message } => {
                let head = prefixed("Timeout during ", phase.as_str()).concat(": ");
                let text = head.concat(message.as_str());
                assert(text@ =~= self@.message());
                text
            },
            LifecycleError::HookFailed { service, message } => {
                let head = prefixed("Hook execution failed for ", service.as_str()).concat(": ");
                let text = head.concat(message.as_str());
                assert(text@ =~= self@.message());
                text
            },
        }
    }
}

} // verus!
