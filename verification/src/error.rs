//! The failures an orchestration request can end in.

use vstd::prelude::*;
use vstd::string::*;

verus! {

/// Why a request to create or focus a window failed.
///
/// Both failures are scoped to the request that met them: the shell keeps
/// running and its state is as it was before the request.
#[derive(Debug, PartialEq, Eq)]
pub enum OrchestratorError {
    /// The requested name has no entry in the location registry.
    UnknownWindowName { name: String },
    /// The host could not create or focus the window; `reason` is the host's
    /// own description of what went wrong.
    HostOperationFailure { name: String, reason: String },
}

/// The mathematical value of an [`OrchestratorError`].
pub enum ErrorView {
    UnknownWindowName { name: Seq<char> },
    HostOperationFailure { name: Seq<char>, reason: Seq<char> },
}

impl View for OrchestratorError {
    type V = ErrorView;

    open spec fn view(&self) -> ErrorView {
        match self {
            OrchestratorError::UnknownWindowName { name } => ErrorView::UnknownWindowName {
                name: name@,
            },
            OrchestratorError::HostOperationFailure {
                name,
                reason,
            } => ErrorView::HostOperationFailure { name: name@, reason: reason@ },
        }
    }
}

/// The text that describes an error to the user.
pub open spec fn message_text(error: ErrorView) -> Seq<char> {
    match error {
        ErrorView::UnknownWindowName { name } => "unknown window name: "@ + name,
        ErrorView::HostOperationFailure { name, reason } => "host operation failed for window "@
            + name + ": "@ + reason,
    }
}

impl OrchestratorError {
    /// Describes the error as text, for callers that report failures as
    /// strings.
    pub fn message(&self) -> (text: String)
        ensures
            text@ == message_text(self@),
    {
        match self {
            OrchestratorError::UnknownWindowName { name } => {
                String::from_str("unknown window name: ").concat(name.as_str())
            },
            OrchestratorError::HostOperationFailure { name, reason } => {
                String::from_str("host operation failed for window ").concat(name.as_str()).concat(
                    ": ",
                ).concat(reason.as_str())
            },
        }
    }
}

} // verus!
