//! The errors of the container service, each carrying the text of its cause.

use vstd::prelude::*;
use vstd::string::*;
use crate::text::concat2;

verus! {

/// What can go wrong when an executor spawns its child.
#[derive(Debug)]
pub enum ExecutorError {
    /// The program the executor needs is not installed.
    ExecutableNotFound { program: String },
    /// Any other executor failure, with its text.
    Other(String),
}

/// The error taxonomy of the service.
#[derive(Debug)]
pub enum ContainerError {
    GitServiceError(String),
    Sqlx(String),
    ExecutorError(ExecutorError),
    Worktree(String),
    Workspace(String),
    WorkspaceManager(String),
    Session(String),
    ExecutionProcess(String),
    Io(String),
    KillFailed(String),
    Other(String),
}

impl ExecutorError {
    /// The text shown for the error.
    pub open spec fn spec_message(&self) -> Seq<char> {
        match self {
            ExecutorError::ExecutableNotFound { program } => "Executable `"@ + program@
                + "` not found in PATH"@,
            ExecutorError::Other(text) => text@,
        }
    }

    /// The text shown for the error.
    pub fn message(&self) -> (text: String)
        ensures
            text@ == self.spec_message(),
    {
        match self {
            ExecutorError::ExecutableNotFound { program } => {
                let mut text = concat2("Executable `", program.as_str());
                text.append("` not found in PATH");
                text
            },
            ExecutorError::Other(text) => text.clone(),
        }
    }
}

impl ContainerError {
    /// The text shown for the error: the cause's own text, with a prefix
    /// for I/O and kill failures.
    pub open spec fn spec_message(&self) -> Seq<char> {
        match self {
            ContainerError::GitServiceError(text) => text@,
            ContainerError::Sqlx(text) => text@,
            ContainerError::ExecutorError(inner) => inner.spec_message(),
            ContainerError::Worktree(text) => text@,
            ContainerError::Workspace(text) => text@,
            ContainerError::WorkspaceManager(text) => text@,
            ContainerError::Session(text) => text@,
            ContainerError::ExecutionProcess(text) => text@,
            ContainerError::Io(text) => "Io error: "@ + text@,
            ContainerError::KillFailed(text) => "Failed to kill process: "@ + text@,
            ContainerError::Other(text) => text@,
        }
    }

    /// The text shown for the error.
    pub fn message(&self) -> (text: String)
        ensures
            text@ == self.spec_message(),
    {
        match self {
            ContainerError::GitServiceError(text) => text.clone(),
            ContainerError::Sqlx(text) => text.clone(),
            ContainerError::ExecutorError(inner) => inner.message(),
            ContainerError::Worktree(text) => text.clone(),
            ContainerError::Workspace(text) => text.clone(),
            ContainerError::WorkspaceManager(text) => text.clone(),
            ContainerError::Session(text) => text.clone(),
            ContainerError::ExecutionProcess(text) => text.clone(),
            ContainerError::Io(text) => concat2("Io error: ", text.as_str()),
            ContainerError::KillFailed(text) => concat2("Failed to kill process: ", text.as_str()),
            ContainerError::Other(text) => text.clone(),
        }
    }

    /// The program that is missing, where the error says that an executable
    /// is not installed.
    pub open spec fn missing_program(&self) -> Option<Seq<char>> {
        match self {
            ContainerError::ExecutorError(ExecutorError::ExecutableNotFound { program }) => Some(
                program@,
            ),
            _ => None,
        }
    }
}

} // verus!
