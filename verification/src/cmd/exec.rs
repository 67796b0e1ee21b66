//! The decisions of the commands: what is installed, and whether an update
//! has anything to fetch.

use vstd::prelude::*;
use crate::cmd::error::Error;
use crate::repo::install::{latest_version_path, read_latest, LatestReading};
use crate::text::views_of;
use crate::toml_doc::{
    dotted, get_toml_value_as_string, parse_toml, string_at, toml_document,
};
use crate::utils::UtilsError;
use crate::version::{semver_parse, version_newer, Version, VersionView, MAIN_STREAM};

verus! {

/// The manifest from which a publish reads the package's name and version.
pub const CARGO_TOML: &'static str = "Cargo.toml";

/// What is known of an installed package: its stream, its version and the
/// repository it came from.
#[derive(Debug)]
pub struct InstalledBinInfo {
    pub stream: String,
    pub version: Version,
    pub repo_raw: String,
}

/// What an update does.
#[derive(Debug, Clone, Copy, PartialEq, Eq, Structural)]
pub enum UpdateAction {
    /// The repository holds a newer version: install it.
    Install,
    /// The installed version is the latest or newer: transfer nothing.
    UpToDate,
}

/// The path of a file's directory, as `Path::parent` of std gives it; nothing
/// for a path that ends in a root or is empty.
pub uninterp spec fn parent_of(path: Seq<char>) -> Option<Seq<char>>;

/// The last component of a path, as `Path::file_name` of std gives it;
/// nothing for a path that ends in `..` or is a root.
pub uninterp spec fn file_name_of(path: Seq<char>) -> Option<Seq<char>>;

/// Calls `Path::parent` of std. The contract only names the outcome.
#[verifier::external_body]
fn path_parent(path: &str) -> (r: Option<String>)
    ensures
        match r {
            Some(p) => parent_of(path@) == Some(p@),
            None => parent_of(path@).is_none(),
        },
{
    std::path::Path::new(path).parent().map(|p| p.to_string_lossy().to_string())
}

/// Calls `Path::file_name` of std. The contract only names the outcome.
#[verifier::external_body]
fn path_file_name(path: &str) -> (r: Option<String>)
    ensures
        match r {
            Some(p) => file_name_of(path@) == Some(p@),
            None => file_name_of(path@).is_none(),
        },
{
    std::path::Path::new(path).file_name().map(|p| p.to_string_lossy().to_string())
}

/// The directory two levels above a path.
pub open spec fn grandparent_of(path: Seq<char>) -> Option<Seq<char>> {
    match parent_of(path) {
        Some(p) => parent_of(p),
        None => None,
    }
}

/// The text of a version in the name of a package directory: the name
/// without the `v` that it begins with.
pub open spec fn version_text_in(dir_name: Seq<char>) -> Seq<char> {
    if dir_name.len() > 0 && dir_name[0] == 'v' {
        dir_name.skip(1)
    } else {
        dir_name
    }
}

/// The version that a package directory is named after.
pub open spec fn version_of_dir(version_dir: Seq<char>) -> Option<VersionView> {
    match file_name_of(version_dir) {
        Some(name) => semver_parse(version_text_in(name)),
        None => None,
    }
}

/// The keys that lead to the stream in an install record.
pub open spec fn install_stream_path() -> Seq<Seq<char>> {
    seq!["install"@, "stream"@]
}

/// The keys that lead to the repository in an install record.
pub open spec fn install_repo_path() -> Seq<Seq<char>> {
    seq!["install"@, "repo"@]
}

/// Decides an update: the latest version of the repository is installed
/// exactly where it is strictly newer than the installed one. Once the
/// installed version is the latest, an update transfers nothing.
pub fn update_decision(installed: &Version, origin: &Version) -> (r: UpdateAction)
    ensures
        r == (if version_newer(origin@, installed@) {
            UpdateAction::Install
        } else {
            UpdateAction::UpToDate
        }),
        origin@ == installed@ ==> r == UpdateAction::UpToDate,
{
    if origin.newer_than(installed) {
        UpdateAction::Install
    } else {
        UpdateAction::UpToDate
    }
}

/// Decides an update from the text of the stream's metadata document. A
/// text that is no document, a document without a string under
/// `latest.version`, and a string there that is no version are failures.
pub fn exec_update(installed: &InstalledBinInfo, origin_toml: &str) -> (r: Result<
    UpdateAction,
    Error,
>)
    ensures
        match read_latest(origin_toml@) {
            LatestReading::NoDocument => r matches Err(Error::Toml(_)),
            LatestReading::NoVersionField => r matches Err(
                Error::Utils(UtilsError::TomlValueNotFound(name)),
            ) && name@ == dotted(latest_version_path()),
            LatestReading::NoVersion => r matches Err(Error::SemVer(_)),
            LatestReading::Version(v) => r matches Ok(action) && action == (if version_newer(
                v,
                installed.version@,
            ) {
                UpdateAction::Install
            } else {
                UpdateAction::UpToDate
            }),
        },
{
    let doc = match parse_toml(origin_toml) {
        Ok(doc) => doc,
        Err(message) => { return Err(Error::Toml(message)); },
    };
    let keys = ["latest", "version"];
    proof {
        assert(views_of(keys@) =~= latest_version_path());
    }
    let text = match get_toml_value_as_string(&doc, keys.as_slice()) {
        Ok(text) => text,
        Err(e) => { return Err(Error::Utils(e)); },
    };
    match Version::parse(text.as_str()) {
        Some(origin) => Ok(update_decision(&installed.version, &origin)),
        None => Err(Error::SemVer(text)),
    }
}

/// The package directory of an installed binary, from the resolved path of
/// its link: two levels up, from `{package_dir}/unpacked/{bin_name}`. A path
/// without two levels above it is refused, naming the link.
pub fn get_version_dir_from_symlink(resolved: &str, bin_symlink: &str) -> (r: Result<String, Error>)
    ensures
        match r {
            Ok(dir) => grandparent_of(resolved@) == Some(dir@),
            Err(Error::CannotFindBinPackageDir(link)) => grandparent_of(resolved@).is_none()
                && link@ == bin_symlink@,
            Err(_) => false,
        },
{
    let package = match path_parent(resolved) {
        Some(parent) => path_parent(parent.as_str()),
        None => None,
    };
    match package {
        Some(path) => Ok(path),
        None => Err(Error::CannotFindBinPackageDir(String::from_str(bin_symlink))),
    }
}

/// What is installed, from what the package directory and the install record
/// gave: the version that the directory is named after, and the stream and
/// the repository of the record, each absent where it could not be had.
/// Without a version the directory is refused, by its path. The stream is the
/// main stream where the record names none. A record without a repository is
/// refused, by the record's path.
pub fn installed_info_from(
    version: Option<Version>,
    stream: Option<String>,
    repo: Option<String>,
    version_dir: &str,
    install_toml_path: &str,
) -> (r: Result<InstalledBinInfo, Error>)
    ensures
        match (version, repo) {
            (None, _) => r matches Err(Error::NoVersionFromBinPath(dir)) && dir@ == version_dir@,
            (Some(_), None) => r matches Err(Error::NoRepoFoundInArgumentOrInInstallToml(p))
                && p@ == install_toml_path@,
            (Some(v), Some(from)) => r matches Ok(info) && info.version == v && info.repo_raw
                == from && info.stream@ == (match stream {
                Some(s) => s@,
                None => "main"@,
            }),
        },
{
    let version = match version {
        Some(v) => v,
        None => { return Err(Error::NoVersionFromBinPath(String::from_str(version_dir))); },
    };
    let stream = match stream {
        Some(s) => s,
        None => String::from_str(MAIN_STREAM),
    };
    let repo_raw = match repo {
        Some(r) => r,
        None => {
            return Err(
                Error::NoRepoFoundInArgumentOrInInstallToml(String::from_str(install_toml_path)),
            );
        },
    };
    Ok(InstalledBinInfo { version, stream, repo_raw })
}

/// The version that a package directory is named after, if it is named after
/// one.
pub fn version_from_dir(version_dir: &str) -> (r: Option<Version>)
    ensures
        match r {
            Some(v) => version_of_dir(version_dir@) == Some(v@),
            None => version_of_dir(version_dir@).is_none(),
        },
{
    match path_file_name(version_dir) {
        Some(name) => {
            let n = name.as_str().unicode_len();
            if n > 0 && name.as_str().get_char(0) == 'v' {
                proof {
                    assert(name@.skip(1) =~= name@.subrange(1, n as int));
                }
                Version::parse(name.as_str().substring_char(1, n))
            } else {
                Version::parse(name.as_str())
            }
        },
        None => None,
    }
}

/// What is installed, from the package directory and the text of its install
/// record. The version is the one that the directory is named after; a
/// directory named after none is refused before the record is read. A text
/// that is no document is a failure. The stream is the record's, or the main
/// stream where the record names none. The repository is the record's; a
/// record without one is refused, naming the record's path.
pub fn extract_installed_bin_info(version_dir: &str, install_toml_path: &str, install_toml: &str) -> (r:
    Result<InstalledBinInfo, Error>)
    ensures
        match (version_of_dir(version_dir@), toml_document(install_toml@)) {
            (None, _) => r matches Err(Error::NoVersionFromBinPath(dir)) && dir@ == version_dir@,
            (Some(_), None) => r matches Err(Error::Toml(_)),
            (Some(v), Some(doc)) => match string_at(doc, install_repo_path()) {
                None => r matches Err(Error::NoRepoFoundInArgumentOrInInstallToml(p)) && p@
                    == install_toml_path@,
                Some(repo) => r matches Ok(info) && info.version@ == v && info.repo_raw@ == repo
                    && info.stream@ == (match string_at(doc, install_stream_path()) {
                    Some(s) => s,
                    None => "main"@,
                }),
            },
        },
{
    let version = match version_from_dir(version_dir) {
        Some(v) => v,
        None => { return Err(Error::NoVersionFromBinPath(String::from_str(version_dir))); },
    };
    let doc = match parse_toml(install_toml) {
        Ok(doc) => doc,
        Err(message) => { return Err(Error::Toml(message)); },
    };
    let stream_keys = ["install", "stream"];
    let repo_keys = ["install", "repo"];
    proof {
        assert(views_of(stream_keys@) =~= install_stream_path());
        assert(views_of(repo_keys@) =~= install_repo_path());
    }
    let stream = match get_toml_value_as_string(&doc, stream_keys.as_slice()) {
        Ok(stream) => Some(stream),
        Err(_) => None,
    };
    let repo = match get_toml_value_as_string(&doc, repo_keys.as_slice()) {
        Ok(repo) => Some(repo),
        Err(_) => None,
    };
    installed_info_from(Some(version), stream, repo, version_dir, install_toml_path)
}

/// The keys that lead to the package's name in its manifest.
pub open spec fn package_name_path() -> Seq<Seq<char>> {
    seq!["package"@, "name"@]
}

/// The keys that lead to the package's version in its manifest.
pub open spec fn package_version_path() -> Seq<Seq<char>> {
    seq!["package"@, "version"@]
}

/// The string under `keys` in the text of a document. A text that is no
/// document and a document without a string there are failures; the second
/// names the dotted key.
pub fn document_string(content: &str, keys: &[&str]) -> (r: Result<String, Error>)
    ensures
        match toml_document(content@) {
            None => r matches Err(Error::Toml(_)),
            Some(doc) => match string_at(doc, views_of(keys@)) {
                None => r matches Err(Error::Utils(UtilsError::TomlValueNotFound(name))) && name@
                    == dotted(views_of(keys@)),
                Some(text) => r matches Ok(found) && found@ == text,
            },
        },
{
    let doc = match parse_toml(content) {
        Ok(doc) => doc,
        Err(message) => { return Err(Error::Toml(message)); },
    };
    match get_toml_value_as_string(&doc, keys) {
        Ok(text) => Ok(text),
        Err(e) => Err(Error::Utils(e)),
    }
}

/// The name of the package to publish, from the text of its manifest.
pub fn package_name_in(cargo_toml: &str) -> (r: Result<String, Error>)
    ensures
        match toml_document(cargo_toml@) {
            None => r matches Err(Error::Toml(_)),
            Some(doc) => match string_at(doc, package_name_path()) {
                None => r matches Err(Error::Utils(UtilsError::TomlValueNotFound(name))) && name@
                    == dotted(package_name_path()),
                Some(text) => r matches Ok(found) && found@ == text,
            },
        },
{
    let keys = ["package", "name"];
    proof {
        assert(views_of(keys@) =~= package_name_path());
    }
    document_string(cargo_toml, keys.as_slice())
}

/// The version of the package to publish, from the text of its manifest. A
/// version text that is no semantic version is refused, naming the text.
pub fn package_version_in(cargo_toml: &str) -> (r: Result<Version, Error>)
    ensures
        match toml_document(cargo_toml@) {
            None => r matches Err(Error::Toml(_)),
            Some(doc) => match string_at(doc, package_version_path()) {
                None => r matches Err(Error::Utils(UtilsError::TomlValueNotFound(name))) && name@
                    == dotted(package_version_path()),
                Some(text) => match semver_parse(text) {
                    None => r matches Err(Error::CargoInvalidVersion(given)) && given@ == text,
                    Some(v) => r matches Ok(found) && found@ == v,
                },
            },
        },
{
    let keys = ["package", "version"];
    proof {
        assert(views_of(keys@) =~= package_version_path());
    }
    let text = match document_string(cargo_toml, keys.as_slice()) {
        Ok(text) => text,
        Err(e) => { return Err(e); },
    };
    match Version::parse(text.as_str()) {
        Some(v) => Ok(v),
        None => Err(Error::CargoInvalidVersion(text)),
    }
}

} // verus!
