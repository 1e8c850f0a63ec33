//! Error taxonomy of the supervisor and of the file/folder commands.
//!
//! Every error is surfaced to the caller as a human-readable message; the
//! `message` methods give the exact text. Where a failure comes out of an
//! OS or platform service, the variant carries that service's own error
//! text and the message appends it to a fixed prefix naming the failure.

use vstd::prelude::*;

verus! {

/// Ways a start attempt can fail. Development-mode starts cannot fail;
/// these arise only on the production path.
#[derive(Clone, Debug)]
pub enum StartError {
    /// The host's resource-location service could not produce a path to
    /// the bundled sidecar binary; carries that service's error text.
    ResourceResolution(String),
    /// Creating the child process failed (missing binary, permissions,
    /// ...); carries the OS error text.
    Spawn(String),
    /// The handshake exhausted its line budget without a valid port line.
    PortNotFound,
}

/// Ways a query of the backend address can fail.
#[derive(Clone, Copy, PartialEq, Eq, Structural, Debug)]
pub enum QueryError {
    /// No port has been recorded yet: queried before any successful start.
    NotStarted,
}

/// Ways the save-file command can fail.
#[derive(Clone, Debug)]
pub enum SaveError {
    /// The user dismissed the save dialog without choosing a location.
    Cancelled,
    /// The chosen location is not a local filesystem path.
    UnsupportedPath,
    /// Writing the content to the chosen path failed; carries the OS
    /// error text.
    Write(String),
}

/// Ways the open-folder command can fail.
#[derive(Clone, Debug)]
pub enum OpenFolderError {
    /// The platform's folder-open command could not be spawned; carries
    /// the OS error text.
    Launch(String),
}

impl StartError {
    pub fn message(&self) -> (m: String)
        ensures
            m@ == match *self {
                StartError::ResourceResolution(d) => "Failed to get resource dir: "@ + d@,
                StartError::Spawn(d) => "Failed to start backend: "@ + d@,
                StartError::PortNotFound => "Failed to read port from backend"@,
            },
    {
        match self {
            StartError::ResourceResolution(d) => "Failed to get resource dir: ".to_owned().concat(
                d.as_str(),
            ),
            StartError::Spawn(d) => "Failed to start backend: ".to_owned().concat(d.as_str()),
            StartError::PortNotFound => "Failed to read port from backend".to_owned(),
        }
    }
}

impl QueryError {
    pub fn message(&self) -> (m: String)
        ensures
            m@ == "Backend not started yet"@,
    {
        "Backend not started yet".to_owned()
    }
}

impl SaveError {
    pub fn message(&self) -> (m: String)
        ensures
            m@ == match *self {
                SaveError::Cancelled => "Save cancelled"@,
                SaveError::UnsupportedPath => "URL paths not supported"@,
                SaveError::Write(d) => "Failed to save file: "@ + d@,
            },
    {
        match self {
            SaveError::Cancelled => "Save cancelled".to_owned(),
            SaveError::UnsupportedPath => "URL paths not supported".to_owned(),
            SaveError::Write(d) => "Failed to save file: ".to_owned().concat(d.as_str()),
        }
    }
}

impl OpenFolderError {
    pub fn message(&self) -> (m: String)
        ensures
            m@ == match *self {
                OpenFolderError::Launch(d) => "Failed to open Downloads: "@ + d@,
            },
    {
        match self {
            OpenFolderError::Launch(d) => "Failed to open Downloads: ".to_owned().concat(d.as_str()),
        }
    }
}

} // verus!
