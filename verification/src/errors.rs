//! Failure taxonomy for descriptor operations.
//!
//! `AppDataError` covers presence, path derivation and download planning;
//! `AppProcessError` covers launch and wait outcomes.

use vstd::prelude::*;

verus! {

/// Failure of a data-level descriptor operation: deriving the executable
/// path or planning a download.
#[derive(Debug, Clone, Copy, PartialEq, Eq, Structural)]
pub enum AppDataError {
    /// The descriptor has no install directory.
    PathNotFound,
    /// The descriptor has no executable name.
    ExecutableNameNotFound,
    /// A download was requested although the descriptor may not download.
    DownloadDisabled,
    /// The transfer itself failed.
    DownloadFailed,
    /// The descriptor has no download source.
    DownloadUrlNotFound,
}

impl AppDataError {
    /// The diagnostic text for this failure.
    pub open spec fn spec_message(self) -> Seq<char> {
        match self {
            AppDataError::PathNotFound => "Path not found."@,
            AppDataError::ExecutableNameNotFound => "Executable name not found."@,
            AppDataError::DownloadDisabled => "Download for this app is disabled."@,
            AppDataError::DownloadFailed => "Download failed."@,
            AppDataError::DownloadUrlNotFound => "Download URL not found."@,
        }
    }

    /// Render the diagnostic text shown to the user.
    pub fn message(&self) -> (r: String)
        ensures
            r@ == self.spec_message(),
    {
        match self {
            AppDataError::PathNotFound => String::from_str("Path not found."),
            AppDataError::ExecutableNameNotFound => String::from_str("Executable name not found."),
            AppDataError::DownloadDisabled => String::from_str(
                "Download for this app is disabled.",
            ),
            AppDataError::DownloadFailed => String::from_str("Download failed."),
            AppDataError::DownloadUrlNotFound => String::from_str("Download URL not found."),
        }
    }
}

/// Failure of a launch-level descriptor operation: spawning a process or
/// waiting for it to exit.
#[derive(Debug, Clone)]
pub enum AppProcessError {
    /// Waiting on a started process failed in the host's wait call itself.
    AppWaitError,
    /// Starting the process failed; the detail names the cause.
    AppLaunchError(String),
    /// The descriptor is disabled or its executable is not present.
    AppNotFound,
}

impl PartialEq for AppProcessError {
    fn eq(&self, other: &Self) -> (r: bool) {
        match (self, other) {
            (AppProcessError::AppWaitError, AppProcessError::AppWaitError) => true,
            (AppProcessError::AppNotFound, AppProcessError::AppNotFound) => true,
            (AppProcessError::AppLaunchError(a), AppProcessError::AppLaunchError(b)) => String::eq(
                a,
                b,
            ),
            _ => false,
        }
    }
}

impl vstd::std_specs::cmp::PartialEqSpecImpl for AppProcessError {
    open spec fn obeys_eq_spec() -> bool {
        true
    }

    open spec fn eq_spec(&self, other: &Self) -> bool {
        match (self, other) {
            (AppProcessError::AppWaitError, AppProcessError::AppWaitError) => true,
            (AppProcessError::AppNotFound, AppProcessError::AppNotFound) => true,
            (AppProcessError::AppLaunchError(a), AppProcessError::AppLaunchError(b)) => a@ == b@,
            _ => false,
        }
    }
}

impl AppProcessError {
    /// The diagnostic text for this failure.
    pub open spec fn spec_message(self) -> Seq<char> {
        match self {
            AppProcessError::AppWaitError => "Failed to wait for application to close"@,
            AppProcessError::AppLaunchError(msg) => "Failed to launch application: "@ + msg@,
            AppProcessError::AppNotFound => "Application not found"@,
        }
    }

    /// Render the diagnostic text shown to the user.
    pub fn message(&self) -> (r: String)
        ensures
            r@ == self.spec_message(),
    {
        match self {
            AppProcessError::AppWaitError => String::from_str(
                "Failed to wait for application to close",
            ),
            AppProcessError::AppLaunchError(msg) => {
                let mut s = String::from_str("Failed to launch application: ");
                s.append(msg.as_str());
                s
            },
            AppProcessError::AppNotFound => String::from_str("Application not found"),
        }
    }
}

} // verus!
