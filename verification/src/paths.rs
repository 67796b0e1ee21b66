//! The layout of the installer's directory below the user's home directory,
//! and the platform target of the host.

use vstd::prelude::*;
use crate::text::{concat, contains, join_path, occurs_in, path_join};
use crate::version::{get_version_part, version_part, Version, VersionView};

verus! {

/// The name of the installer's directory below the home directory.
pub const BINST_DIR: &'static str = ".binst";

/// The lower-case form of a text, as `str::to_lowercase` of std gives it.
pub uninterp spec fn lowercase_of(text: Seq<char>) -> Seq<char>;

/// Calls `str::to_lowercase` of std. The contract only names the outcome.
#[verifier::external_body]
fn to_lowercase(text: &str) -> (r: String)
    ensures
        r@ == lowercase_of(text@),
{
    text.to_lowercase()
}

/// The installer's directory: `{home}/.binst`.
pub open spec fn binst_dir_path(home: Seq<char>) -> Seq<char> {
    path_join(home, ".binst"@)
}

/// The directory for temporary files, or a folder in it:
/// `{home}/.binst/tmp` or `{home}/.binst/tmp/{folder}`.
pub open spec fn tmp_dir_path(home: Seq<char>, folder: Option<&str>) -> Seq<char> {
    match folder {
        Some(f) => path_join(path_join(binst_dir_path(home), "tmp"@), f@),
        None => path_join(binst_dir_path(home), "tmp"@),
    }
}

/// The directory of one version of a package:
/// `{home}/.binst/packages/{bin_name}/v{version}`.
pub open spec fn package_dir_path(home: Seq<char>, bin_name: Seq<char>, version: VersionView) -> Seq<
    char,
> {
    path_join(
        path_join(path_join(binst_dir_path(home), "packages"@), bin_name),
        version_part(version),
    )
}

/// The platform target for a machine name and a lower-case system name.
pub open spec fn target_for(machine: Seq<char>, sysname_lower: Seq<char>) -> Seq<char> {
    if occurs_in(sysname_lower, "darwin"@) {
        machine + "-apple-darwin"@
    } else if occurs_in(sysname_lower, "linux"@) {
        machine + "-unknown-linux-gnu"@
    } else {
        machine + "-not-supported"@
    }
}

/// The installer's directory below the home directory.
pub fn binst_dir(home: &str) -> (r: String)
    ensures
        r@ == binst_dir_path(home@),
{
    join_path(home, BINST_DIR)
}

/// The directory for temporary files, or the named folder in it.
pub fn binst_tmp_dir(home: &str, folder: Option<&str>) -> (r: String)
    ensures
        r@ == tmp_dir_path(home@, folder),
{
    let dir = binst_dir(home);
    let tmp = join_path(dir.as_str(), "tmp");
    match folder {
        Some(f) => join_path(tmp.as_str(), f),
        None => tmp,
    }
}

/// The directory of one version of a package.
pub fn binst_package_bin_dir(home: &str, bin_name: &str, version: &Version) -> (r: String)
    ensures
        r@ == package_dir_path(home@, bin_name@, version@),
{
    let dir = binst_dir(home);
    let packages = join_path(dir.as_str(), "packages");
    let package = join_path(packages.as_str(), bin_name);
    let part = get_version_part(version);
    join_path(package.as_str(), part.as_str())
}

/// The file that puts the bin directory on the search path:
/// `{home}/.binst/env`.
pub fn binst_env(home: &str) -> (r: String)
    ensures
        r@ == path_join(binst_dir_path(home@), "env"@),
{
    let dir = binst_dir(home);
    join_path(dir.as_str(), "env")
}

/// The directory of the links to installed binaries: `{home}/.binst/bin`.
pub fn binst_bin_dir(home: &str) -> (r: String)
    ensures
        r@ == path_join(binst_dir_path(home@), "bin"@),
{
    let dir = binst_dir(home);
    join_path(dir.as_str(), "bin")
}

/// The platform target for a machine name and a system name in lower case:
/// Darwin and Linux are known, anything else is marked as not supported.
pub fn os_target_for(machine: &str, sysname_lower: &str) -> (r: String)
    ensures
        r@ == target_for(machine@, sysname_lower@),
{
    if contains(sysname_lower, "darwin") {
        concat(machine, "-apple-darwin")
    } else if contains(sysname_lower, "linux") {
        concat(machine, "-unknown-linux-gnu")
    } else {
        concat(machine, "-not-supported")
    }
}

/// The platform target of a host, from its machine name and system name.
pub fn os_target(machine: &str, sysname: &str) -> (r: String)
    ensures
        r@ == target_for(machine@, lowercase_of(sysname@)),
{
    let lower = to_lowercase(sysname);
    os_target_for(machine, lower.as_str())
}

} // verus!
