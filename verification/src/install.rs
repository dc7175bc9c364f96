use vstd::prelude::*;
use crate::errors::DllError;

verus! {

/// How the installer collaborator's run went, as the embedding program
/// reports it: either every step completed, or the first failing step with
/// the underlying I/O diagnostic.  The steps run in a fixed order — set
/// up, copy into place, verify — and the first failure stops the run.
#[derive(Debug, Clone, PartialEq, Eq)]
pub enum InstallReport {
    /// Setting up the installer, copying the library into place and
    /// verifying the installation all succeeded.
    Completed,
    /// The installer could not be constructed.
    SetupFailed(String),
    /// Copying the library into the installation directory failed.
    CopyFailed(String),
    /// The installed library failed verification.
    VerificationFailed(String),
}

/// Install the native library: success exactly when every installer step
/// completed, and the failing step's diagnostic as an `InstallError`
/// otherwise.
pub fn install_dll(report: &InstallReport) -> (r: Result<(), DllError>)
    ensures
        match *report {
            InstallReport::Completed => r == Ok::<(), DllError>(()),
            InstallReport::SetupFailed(m) => r == Err::<(), DllError>(DllError::InstallError(m)),
            InstallReport::CopyFailed(m) => r == Err::<(), DllError>(DllError::InstallError(m)),
            InstallReport::VerificationFailed(m) => r == Err::<(), DllError>(
                DllError::InstallError(m),
            ),
        },
{
    match report {
        InstallReport::Completed => Ok(()),
        InstallReport::SetupFailed(m) => Err(DllError::InstallError(m.clone())),
        InstallReport::CopyFailed(m) => Err(DllError::InstallError(m.clone())),
        InstallReport::VerificationFailed(m) => Err(DllError::InstallError(m.clone())),
    }
}

} // verus!
