//! The installer's bookkeeping and the accessor. The file writes themselves
//! are I/O and live with the caller; what is verified here is every decision
//! around them: where the binary goes, which file mode it gets, what record an
//! installation leaves behind, and what the accessor answers from that record.

use vstd::prelude::*;
use vstd::string::StringExecFns;

use crate::InstallError;

verus! {

/// The file mode an installed binary receives on non-Windows targets.
pub const EXECUTABLE_MODE: u32 = 0o755;

/// The install directory derived from a home directory: a fixed subfolder
/// beneath it.
pub open spec fn spec_installation_dir(home: Seq<char>) -> Seq<char> {
    home + "/.mary_elizabeth_utils"@
}

/// Derives the install directory from the user's home directory, failing when
/// no home directory is available.
pub fn get_installation_dir(home: Option<&str>) -> (r: Result<String, InstallError>)
    ensures
        home is Some ==> r is Ok,
        home is None ==> r == Err::<String, InstallError>(InstallError::MissingHomeDirectory),
        r matches Ok(d) ==> home matches Some(h) && d@ == spec_installation_dir(h@),
{
    match home {
        None => Err(InstallError::MissingHomeDirectory),
        Some(h) => {
            let mut dir = h.to_owned();
            dir.append("/.mary_elizabeth_utils");
            Ok(dir)
        },
    }
}

/// The destination path of a binary inside an install directory.
pub open spec fn spec_install_path(dir: Seq<char>, binary_name: Seq<char>) -> Seq<char> {
    dir + "/"@ + binary_name
}

/// Joins the install directory and the binary's file name into the destination
/// path the binary is written to.
pub fn install_path(dir: &str, binary_name: &str) -> (r: String)
    ensures
        r@ == spec_install_path(dir@, binary_name@),
{
    let mut path = dir.to_owned();
    path.append("/");
    path.append(binary_name);
    path
}

/// The package-relative path a build-time installation copies the binary to.
pub open spec fn spec_package_binary_path(binary_name: Seq<char>) -> Seq<char> {
    "rust-bin/readstat_binary/"@ + binary_name
}

/// The path under the package tree where a build-time installation records its
/// copy of the binary.
pub fn package_binary_path(binary_name: &str) -> (r: String)
    ensures
        r@ == spec_package_binary_path(binary_name@),
{
    let mut path = String::new();
    path.append("rust-bin/readstat_binary/");
    path.append(binary_name);
    path
}

/// The record a completed installation leaves behind: the path the binary was
/// written to, and whether its file mode was made executable.
#[derive(Clone, Debug)]
pub struct InstalledBinary {
    pub path: String,
    pub executable: bool,
}

/// Records a completed installation. The binary's file mode is made executable
/// on every target but Windows.
pub fn record_installation(path: String, windows: bool) -> (r: InstalledBinary)
    ensures
        r.path@ == path@,
        r.executable == !windows,
{
    InstalledBinary { path, executable: !windows }
}

/// What the accessor answers from the installation record: the recorded path,
/// or a failure when no installation has taken place.
pub open spec fn spec_get_readstat_path(record: Option<InstalledBinary>) -> Result<
    Seq<char>,
    InstallError,
> {
    match record {
        Some(b) => Ok(b.path@),
        None => Err(InstallError::NotInstalled),
    }
}

/// The accessor: answers the installed binary's path from the installation
/// record, and fails — rather than inventing a path — when there is no record.
pub fn get_readstat_path(record: &Option<InstalledBinary>) -> (r: Result<String, InstallError>)
    ensures
        match r {
            Ok(p) => spec_get_readstat_path(*record) == Ok::<Seq<char>, InstallError>(p@),
            Err(e) => spec_get_readstat_path(*record) == Err::<Seq<char>, InstallError>(e),
        },
{
    match record {
        Some(b) => Ok(b.path.clone()),
        None => Err(InstallError::NotInstalled),
    }
}

/// Law: after a successful installation the accessor returns exactly the
/// recorded path, and on non-Windows targets that record is executable.
pub proof fn lemma_accessor_after_install(record: InstalledBinary, windows: bool)
    requires
        record.executable == !windows,
    ensures
        spec_get_readstat_path(Some(record)) == Ok::<Seq<char>, InstallError>(record.path@),
        !windows ==> record.executable,
{
}

/// Law: with no installation on record the accessor fails, instead of handing
/// back a path nothing was written to.
pub proof fn lemma_accessor_without_install()
    ensures
        spec_get_readstat_path(None) == Err::<Seq<char>, InstallError>(InstallError::NotInstalled),
{
}

} // verus!
