use vstd::prelude::*;
use vstd::string::StringExecFns;
use crate::version::{Version, spec_version_text};

verus! {

/// Everything that can go wrong while locating, loading, installing,
/// version-checking or dispatching into the native library.
#[derive(Debug, Clone, PartialEq, Eq)]
pub enum DllError {
    /// No candidate library path exists on disk.
    NotFound,
    /// The OS-level load call failed; carries the loader's diagnostic.
    LoadError(String),
    /// The installer collaborator failed; carries the underlying I/O
    /// failure's diagnostic.
    InstallError(String),
    /// The version reported by the loaded library does not exactly equal
    /// the required version.
    VersionMismatch { expected: Version, found: Version },
    /// Catch-all for negotiation failures not otherwise classified.
    InitializationError(String),
}

/// The message text for each error, as a sequence of characters.
pub open spec fn spec_error_message(e: DllError) -> Seq<char> {
    match e {
        DllError::NotFound => "DLL not found"@,
        DllError::LoadError(msg) => "Failed to load DLL: "@ + msg@,
        DllError::InstallError(msg) => "Failed to install DLL: "@ + msg@,
        DllError::VersionMismatch { expected, found } => "Version mismatch: expected "@
            + spec_version_text(expected) + ", found "@ + spec_version_text(found),
        DllError::InitializationError(msg) => "Initialization error: "@ + msg@,
    }
}

impl DllError {
    /// A human-readable description of this error.
    pub fn message(&self) -> (s: String)
        ensures
            s@ == spec_error_message(*self),
    {
        match self {
            DllError::NotFound => "DLL not found".to_owned(),
            DllError::LoadError(msg) => {
                let mut s = "Failed to load DLL: ".to_owned();
                s.append(msg.as_str());
                s
            },
            DllError::InstallError(msg) => {
                let mut s = "Failed to install DLL: ".to_owned();
                s.append(msg.as_str());
                s
            },
            DllError::VersionMismatch { expected, found } => {
                let mut s = "Version mismatch: expected ".to_owned();
                s.append(expected.to_text().as_str());
                s.append(", found ");
                s.append(found.to_text().as_str());
                proof {
                    assert(s@ =~= spec_error_message(*self));
                }
                s
            },
            DllError::InitializationError(msg) => {
                let mut s = "Initialization error: ".to_owned();
                s.append(msg.as_str());
                s
            },
        }
    }
}

} // verus!
