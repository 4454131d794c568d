//! Locates and provisions a prebuilt `readstat` command-line binary: resolves
//! the release asset for a platform, picks the matching asset out of a release
//! listing, extracts the binary from the downloaded archive, computes the
//! install location, and exposes the installed path to a host caller.

use vstd::prelude::*;

pub mod archive;
pub mod install;
pub mod platform;
pub mod release;
pub mod text;

verus! {

/// Every way the provisioning sequence can fail. Each operation is terminal:
/// there are no retries and no partial-success recovery.
#[derive(Clone, Copy, PartialEq, Eq, Structural, Debug)]
pub enum InstallError {
    /// No release asset is published for the requested platform.
    UnsupportedPlatform,
    /// The release listing holds no asset with the resolved name.
    AssetNotFound,
    /// The asset's file extension names no known archive format.
    UnsupportedArchiveFormat,
    /// The downloaded bytes could not be decoded as an archive.
    ArchiveParse,
    /// The archive was decoded but holds no entry named like the binary.
    BinaryNotFoundInArchive,
    /// No home directory is available to derive the install directory from.
    MissingHomeDirectory,
    /// The accessor was called before any installation took place.
    NotInstalled,
}

/// The description each failure carries.
pub open spec fn spec_message(e: InstallError) -> Seq<char> {
    match e {
        InstallError::UnsupportedPlatform => "unsupported target platform"@,
        InstallError::AssetNotFound => "no suitable asset found for this platform"@,
        InstallError::UnsupportedArchiveFormat => "unsupported archive format"@,
        InstallError::ArchiveParse => "failed to decode the downloaded archive"@,
        InstallError::BinaryNotFoundInArchive => "binary not found in archive"@,
        InstallError::MissingHomeDirectory => "could not determine home directory"@,
        InstallError::NotInstalled => "readstat binary is not installed"@,
    }
}

impl InstallError {
    /// A short description of the failure, usable in a surfaced error.
    pub fn message(&self) -> (m: &'static str)
        ensures
            m@ == spec_message(*self),
    {
        match self {
            InstallError::UnsupportedPlatform => "unsupported target platform",
            InstallError::AssetNotFound => "no suitable asset found for this platform",
            InstallError::UnsupportedArchiveFormat => "unsupported archive format",
            InstallError::ArchiveParse => "failed to decode the downloaded archive",
            InstallError::BinaryNotFoundInArchive => "binary not found in archive",
            InstallError::MissingHomeDirectory => "could not determine home directory",
            InstallError::NotInstalled => "readstat binary is not installed",
        }
    }
}

/// Law: no two failures share a description, so no error can be mistaken for
/// another when it is surfaced.
pub proof fn lemma_messages_distinct(a: InstallError, b: InstallError)
    requires
        a != b,
    ensures
        spec_message(a) != spec_message(b),
{
    reveal_strlit("unsupported target platform");
    reveal_strlit("no suitable asset found for this platform");
    reveal_strlit("unsupported archive format");
    reveal_strlit("failed to decode the downloaded archive");
    reveal_strlit("binary not found in archive");
    reveal_strlit("could not determine home directory");
    reveal_strlit("readstat binary is not installed");
    assert(spec_message(InstallError::UnsupportedPlatform).len() == 27);
    assert(spec_message(InstallError::AssetNotFound).len() == 41);
    assert(spec_message(InstallError::UnsupportedArchiveFormat).len() == 26);
    assert(spec_message(InstallError::ArchiveParse).len() == 39);
    assert(spec_message(InstallError::BinaryNotFoundInArchive).len() == 27);
    assert(spec_message(InstallError::MissingHomeDirectory).len() == 34);
    assert(spec_message(InstallError::NotInstalled).len() == 32);
    assert(spec_message(InstallError::UnsupportedPlatform)[0] == 'u');
    assert(spec_message(InstallError::BinaryNotFoundInArchive)[0] == 'b');
}

/// The file name of the binary inside a release archive and on disk:
/// `readstat.exe` on Windows targets, `readstat` everywhere else.
pub fn get_binary_name(windows: bool) -> (r: &'static str)
    ensures
        windows ==> r@ == "readstat.exe"@,
        !windows ==> r@ == "readstat"@,
{
    if windows {
        "readstat.exe"
    } else {
        "readstat"
    }
}

} // verus!
