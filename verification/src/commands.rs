//! Decision logic of the file-save and folder-open commands.
//!
//! The native save dialog, the file write and the folder-open spawn are OS
//! services the shell calls; what stands here is the verified mapping from
//! their outcomes to results, and the path and command conventions.

use vstd::prelude::*;

use crate::errors::SaveError;

verus! {

/// What the native save dialog came back with.
pub enum DialogOutcome {
    /// The user chose this local filesystem path.
    Selected(String),
    /// The user chose a location that is not a local filesystem path.
    RemoteUrl,
    /// The user dismissed the dialog.
    Cancelled,
}

/// Decide the save operation from the dialog's outcome: only a selected
/// local path is written to, and it doubles as the confirmation returned to
/// the caller. On `Err` nothing is to be written.
pub fn plan_save(outcome: DialogOutcome) -> (r: Result<String, SaveError>)
    ensures
        match outcome {
            DialogOutcome::Selected(p) => r matches Ok(q) && q == p,
            DialogOutcome::RemoteUrl => r == Err::<String, SaveError>(SaveError::UnsupportedPath),
            DialogOutcome::Cancelled => r == Err::<String, SaveError>(SaveError::Cancelled),
        },
{
    match outcome {
        DialogOutcome::Selected(p) => Ok(p),
        DialogOutcome::RemoteUrl => Err(SaveError::UnsupportedPath),
        DialogOutcome::Cancelled => Err(SaveError::Cancelled),
    }
}

/// The target operating system, fixed at build time; it selects the
/// folder-open command and the path separator.
#[derive(Clone, Copy, PartialEq, Eq, Structural, Debug)]
pub enum Platform {
    MacOs,
    Linux,
    Windows,
}

/// The `Downloads` suffix appended to the home directory, with the
/// platform's separator.
pub open spec fn downloads_suffix_chars(platform: Platform) -> Seq<char> {
    match platform {
        Platform::Windows => "\\Downloads"@,
        _ => "/Downloads"@,
    }
}

/// The user's Downloads directory: the home directory plus the platform's
/// `Downloads` suffix.
pub fn downloads_path(home: &str, platform: Platform) -> (p: String)
    ensures
        p@ == home@ + downloads_suffix_chars(platform),
{
    match platform {
        Platform::Windows => home.to_owned().concat("\\Downloads"),
        _ => home.to_owned().concat("/Downloads"),
    }
}

/// The platform's native folder-open command.
pub fn folder_open_command(platform: Platform) -> (c: &'static str)
    ensures
        c@ == match platform {
            Platform::MacOs => "open"@,
            Platform::Linux => "xdg-open"@,
            Platform::Windows => "explorer"@,
        },
{
    match platform {
        Platform::MacOs => "open",
        Platform::Linux => "xdg-open",
        Platform::Windows => "explorer",
    }
}

} // verus!
