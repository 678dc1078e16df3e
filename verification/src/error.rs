//! The error taxonomy of the library.
//!
//! Every failure a command can report is one of these variants; the
//! unverified shell turns them into user-facing messages via [`FygError::describe`].

use vstd::prelude::*;

verus! {

#[derive(Clone, Copy, Debug, PartialEq, Eq, Structural)]
pub enum FygError {
    /// Malformed user-supplied version string.
    InvalidVersionSyntax,
    /// The requested version is already installed; reinstall needs force.
    AlreadyInstalled,
    /// The release source has no release under the requested tag.
    VersionNotFound,
    /// The release exists but ships no archive for this host platform.
    UnsupportedPlatform,
    /// A transport error while fetching the archive.
    DownloadFailed,
    /// The archive could not be extracted.
    ExtractionFailed,
    /// The launch or edit target is not installed.
    NotInstalled,
    /// A filesystem error; always fatal.
    Io,
}

pub open spec fn spec_describe(e: FygError) -> Seq<char> {
    match e {
        FygError::InvalidVersionSyntax => "invalid version syntax"@,
        FygError::AlreadyInstalled => "version is already installed"@,
        FygError::VersionNotFound => "version not found"@,
        FygError::UnsupportedPlatform => "version does not support this platform"@,
        FygError::DownloadFailed => "download failed"@,
        FygError::ExtractionFailed => "could not extract archive"@,
        FygError::NotInstalled => "version is not installed"@,
        FygError::Io => "filesystem error"@,
    }
}

impl FygError {
    /// A short description of the error, for reporting.
    pub fn describe(&self) -> (r: &'static str)
        ensures
            r@ == spec_describe(*self),
    {
        match self {
            FygError::InvalidVersionSyntax => "invalid version syntax",
            FygError::AlreadyInstalled => "version is already installed",
            FygError::VersionNotFound => "version not found",
            FygError::UnsupportedPlatform => "version does not support this platform",
            FygError::DownloadFailed => "download failed",
            FygError::ExtractionFailed => "could not extract archive",
            FygError::NotInstalled => "version is not installed",
            FygError::Io => "filesystem error",
        }
    }
}

} // verus!
