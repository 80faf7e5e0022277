//! The error taxonomy of the provisioning pipeline. Every failure names the
//! step that failed; none is recovered from inside the library.
use vstd::prelude::*;

use crate::text::{u8_dec, u8_dec_spec};

verus! {

/// Everything that can go wrong while provisioning or unpacking the runtime
/// library. `UnsupportedPlatform` and `UnsupportedVersion` are raised before
/// any download or filesystem work is attempted.
#[derive(Debug)]
pub enum ProvisionError {
    /// The (operating system, architecture) pair has no download mapping.
    UnsupportedPlatform { os: String, arch: String },
    /// The requested version is not in the fixed allow-list.
    UnsupportedVersion { version: String },
    /// A byte tag did not denote any known dynamic-library kind.
    UnknownLibraryTag { tag: u8 },
    /// The network fetch of the archive failed.
    Download { url: String },
    /// The cache lock file could not be opened or acquired.
    LockAcquisition,
    /// The downloaded archive could not be decoded.
    Extraction,
    /// An archive entry would escape the destination directory.
    PathTraversal { name: String },
    /// The library directory could not be packed into a blob.
    Pack,
    /// Extraction succeeded but the expected library file is absent.
    MissingArtifact,
    /// The embedded blob could not be decoded at run time.
    Unpack,
}

impl ProvisionError {
    /// The diagnostic text for this failure.
    pub open spec fn describe_spec(self) -> Seq<char> {
        match self {
            ProvisionError::UnsupportedPlatform { os, arch } => "unsupported platform or architecture: "@
                + os@ + " "@ + arch@,
            ProvisionError::UnsupportedVersion { version } => version@
                + " passed in as version, only the following versions are supported: 1.20.0"@,
            ProvisionError::UnknownLibraryTag { tag } => u8_dec_spec(tag)
                + " is not a supported library kind tag"@,
            ProvisionError::Download { url } => "failed to download from "@ + url@,
            ProvisionError::LockAcquisition => "failed to open or acquire the cache lock file"@,
            ProvisionError::Extraction => "failed to extract the archive"@,
            ProvisionError::PathTraversal { name } => "archive entry escapes the destination directory: "@
                + name@,
            ProvisionError::Pack => "failed to pack the library directory"@,
            ProvisionError::MissingArtifact => "library file missing after extraction"@,
            ProvisionError::Unpack => "failed to unpack the embedded library blob"@,
        }
    }

    /// Renders the diagnostic that a build or program start-up reports.
    pub fn describe(&self) -> (r: String)
        ensures
            r@ == self.describe_spec(),
    {
        match self {
            ProvisionError::UnsupportedPlatform { os, arch } => {
                let mut m = String::from_str("unsupported platform or architecture: ");
                m.append(os.as_str());
                m.append(" ");
                m.append(arch.as_str());
                m
            },
            ProvisionError::UnsupportedVersion { version } => {
                let mut m = String::from_str(version.as_str());
                m.append(" passed in as version, only the following versions are supported: 1.20.0");
                m
            },
            ProvisionError::UnknownLibraryTag { tag } => {
                let mut m = u8_dec(*tag);
                m.append(" is not a supported library kind tag");
                m
            },
            ProvisionError::Download { url } => {
                let mut m = String::from_str("failed to download from ");
                m.append(url.as_str());
                m
            },
            ProvisionError::LockAcquisition => String::from_str(
                "failed to open or acquire the cache lock file",
            ),
            ProvisionError::Extraction => String::from_str("failed to extract the archive"),
            ProvisionError::PathTraversal { name } => {
                let mut m = String::from_str("archive entry escapes the destination directory: ");
                m.append(name.as_str());
                m
            },
            ProvisionError::Pack => String::from_str("failed to pack the library directory"),
            ProvisionError::MissingArtifact => String::from_str(
                "library file missing after extraction",
            ),
            ProvisionError::Unpack => String::from_str("failed to unpack the embedded library blob"),
        }
    }
}

} // verus!
