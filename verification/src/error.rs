//! The failures that a session command reports to its caller.

use vstd::prelude::*;
use vstd::string::StringExecFns;

verus! {

/// The step of bringing up a pseudo-terminal at which the transport failed.
#[derive(Debug, Clone, Copy, PartialEq, Eq)]
pub enum TransportStage {
    /// Allocating the pseudo-terminal pair.
    Allocate,
    /// Cloning a reader from the master side.
    CloneReader,
    /// Taking the writer of the master side.
    TakeWriter,
}

/// Why a session command failed.
#[derive(Debug, Clone, PartialEq, Eq)]
pub enum TerminalError {
    /// The command named a session that is not registered.
    SessionNotFound,
    /// No accessible working directory could be found. `path` is the last
    /// directory that was tried, if there was one.
    InvalidWorkingDirectory { path: Option<String> },
    /// The pseudo-terminal could not be set up.
    TransportFailed { stage: TransportStage, detail: String },
    /// The shell could not be started.
    SpawnFailed { detail: String },
    /// Writing to the session failed. The session stays registered.
    WriteFailed { detail: String },
    /// Resizing the session failed. The session stays registered.
    ResizeFailed { detail: String },
}

impl TerminalError {
    /// The text of the error as the host sees it.
    pub open spec fn message_text(self) -> Seq<char> {
        match self {
            TerminalError::SessionNotFound => "Terminal session not found"@,
            TerminalError::InvalidWorkingDirectory { path: None } =>
                "Unable to determine working directory"@,
            TerminalError::InvalidWorkingDirectory { path: Some(path) } =>
                "Working directory is not accessible: "@ + path@,
            TerminalError::TransportFailed { stage: TransportStage::Allocate, detail } => detail@,
            TerminalError::TransportFailed { stage: TransportStage::CloneReader, detail } =>
                "Failed to clone PTY reader: "@ + detail@,
            TerminalError::TransportFailed { stage: TransportStage::TakeWriter, detail } =>
                "Failed to take PTY writer: "@ + detail@,
            TerminalError::SpawnFailed { detail } => "Failed to spawn shell: "@ + detail@,
            TerminalError::WriteFailed { detail } => "Failed to write to terminal: "@ + detail@,
            TerminalError::ResizeFailed { detail } => "Failed to resize terminal: "@ + detail@,
        }
    }

    /// Renders the error for the host.
    pub fn message(&self) -> (text: String)
        ensures
            text@ == self.message_text(),
    {
        match self {
            TerminalError::SessionNotFound => String::from_str("Terminal session not found"),
            TerminalError::InvalidWorkingDirectory { path: None } => String::from_str(
                "Unable to determine working directory",
            ),
            TerminalError::InvalidWorkingDirectory { path: Some(path) } => String::from_str(
                "Working directory is not accessible: ",
            ).concat(path.as_str()),
            TerminalError::TransportFailed { stage: TransportStage::Allocate, detail } =>
                detail.clone(),
            TerminalError::TransportFailed { stage: TransportStage::CloneReader, detail } =>
                String::from_str("Failed to clone PTY reader: ").concat(detail.as_str()),
            TerminalError::TransportFailed { stage: TransportStage::TakeWriter, detail } =>
                String::from_str("Failed to take PTY writer: ").concat(detail.as_str()),
            TerminalError::SpawnFailed { detail } => String::from_str(
                "Failed to spawn shell: ",
            ).concat(detail.as_str()),
            TerminalError::WriteFailed { detail } => String::from_str(
                "Failed to write to terminal: ",
            ).concat(detail.as_str()),
            TerminalError::ResizeFailed { detail } => String::from_str(
                "Failed to resize terminal: ",
            ).concat(detail.as_str()),
        }
    }
}

} // verus!
