//! Installing: reading the latest version of a stream, the steps of an
//! install in their order, and the files that an install writes.

use vstd::prelude::*;
use crate::repo::error::{Error, ErrorKind};
use crate::text::{concat, join_path, path_join};
use crate::toml_doc::{
    dotted, get_toml_value_as_string, parse_toml, string_at, toml_document, toml_paths,
};
use crate::utils::UtilsError;
use crate::version::{decimal, push_decimal, semver_parse, version_text, Version, VersionView};

verus! {

/// The keys that lead to the latest version in a stream's metadata document.
pub open spec fn latest_version_path() -> Seq<Seq<char>> {
    seq!["latest"@, "version"@]
}

/// What a stream's metadata document says of the latest version: the version;
/// or no document, no string under `latest.version`, or a string that is no
/// version.
pub enum LatestReading {
    NoDocument,
    NoVersionField,
    NoVersion,
    Version(VersionView),
}

/// Reads a stream's metadata document.
pub open spec fn read_latest(content: Seq<char>) -> LatestReading {
    match toml_document(content) {
        None => LatestReading::NoDocument,
        Some(doc) => match string_at(doc, latest_version_path()) {
            None => LatestReading::NoVersionField,
            Some(text) => match semver_parse(text) {
                None => LatestReading::NoVersion,
                Some(v) => LatestReading::Version(v),
            },
        },
    }
}

/// The latest version that a parsed metadata document names. A document
/// without a string under `latest.version` is refused with the dotted key, and
/// a string that is no version with `InvalidVersionFromOrigin`.
pub fn latest_version_in(doc: &toml::Value) -> (r: Result<Version, Error>)
    ensures
        match string_at(toml_paths(*doc), latest_version_path()) {
            None => r matches Err(Error::UtilsError(UtilsError::TomlValueNotFound(name)))
                && name@ == dotted(latest_version_path()),
            Some(text) => match semver_parse(text) {
                None => r matches Err(Error::InvalidVersionFromOrigin),
                Some(v) => r matches Ok(found) && found@ == v,
            },
        },
        r matches Err(e) ==> e.kind_spec() == ErrorKind::InvalidVersion,
{
    let keys = ["latest", "version"];
    proof {
        assert(crate::text::views_of(keys@) =~= latest_version_path());
    }
    match get_toml_value_as_string(doc, keys.as_slice()) {
        Err(e) => Err(Error::UtilsError(e)),
        Ok(text) => match Version::parse(text.as_str()) {
            Some(v) => Ok(v),
            None => Err(Error::InvalidVersionFromOrigin),
        },
    }
}

/// The latest version that the text of a stream's metadata document names.
/// Every failure says that the document is unusable, never that it is
/// missing: a text that is no document, a document without a string under
/// `latest.version`, and a string there that is no version.
pub fn get_origin_latest_version(content: &str) -> (r: Result<Version, Error>)
    ensures
        match read_latest(content@) {
            LatestReading::NoDocument => r matches Err(Error::TomlError(_)),
            LatestReading::NoVersionField => r matches Err(
                Error::UtilsError(UtilsError::TomlValueNotFound(name)),
            ) && name@ == dotted(latest_version_path()),
            LatestReading::NoVersion => r matches Err(Error::InvalidVersionFromOrigin),
            LatestReading::Version(v) => r matches Ok(found) && found@ == v,
        },
        r matches Err(e) ==> e.kind_spec() == ErrorKind::InvalidVersion,
{
    match parse_toml(content) {
        Err(message) => Err(Error::TomlError(message)),
        Ok(doc) => latest_version_in(&doc),
    }
}

/// Whether the stream's metadata document of a local repository can be read:
/// where no file stands at its path the stream is reported as not found, with
/// the path.
pub fn require_origin_latest(path: &str, is_file: bool) -> (r: Result<(), Error>)
    ensures
        match r {
            Ok(_) => is_file,
            Err(Error::OriginLatestNotFound(p)) => !is_file && p@ == path@,
            Err(_) => false,
        },
{
    if is_file {
        Ok(())
    } else {
        Err(Error::OriginLatestNotFound(String::from_str(path)))
    }
}

/// What is fetched from a repository.
#[derive(Debug, Clone, Copy, PartialEq, Eq, Structural)]
pub enum Wanted {
    /// The metadata document of a stream.
    LatestToml,
    /// The archive of a version.
    Archive,
}

/// The failure that reports `wanted` as missing at `location`.
pub open spec fn is_not_found(e: Error, wanted: Wanted, location: Seq<char>) -> bool {
    match wanted {
        Wanted::LatestToml => e matches Error::OriginLatestNotFound(p) && p@ == location,
        Wanted::Archive => e matches Error::OriginTarGzNotFound(p) && p@ == location,
    }
}

/// Reports `wanted` as missing at `location`.
pub fn not_found(wanted: Wanted, location: &str) -> (r: Error)
    ensures
        is_not_found(r, wanted, location@),
        r.kind_spec() == ErrorKind::NotFound,
{
    match wanted {
        Wanted::LatestToml => Error::OriginLatestNotFound(String::from_str(location)),
        Wanted::Archive => Error::OriginTarGzNotFound(String::from_str(location)),
    }
}

/// The failure of a request to a bucket, from the HTTP status of the
/// response, where there was one, and the provider's error code: status 404
/// says that what was asked for is missing at `url`; anything else is a
/// failure of the provider, kept with its code.
pub fn s3_failure(wanted: Wanted, status: Option<u16>, code: &str, url: &str) -> (r: Error)
    ensures
        status == Some(404u16) ==> is_not_found(r, wanted, url@),
        status != Some(404u16) ==> (r matches Error::AwsServiceError(c) && c@ == code@),
        r.kind_spec() == (if status == Some(404u16) {
            ErrorKind::NotFound
        } else {
            ErrorKind::Transport
        }),
{
    match status {
        Some(404) => not_found(wanted, url),
        _ => Error::AwsServiceError(String::from_str(code)),
    }
}

/// Whether a response over HTTP holds what was asked for: status 404 says
/// that it is missing at `url`.
pub fn http_found(wanted: Wanted, status: u16, url: &str) -> (r: Result<(), Error>)
    ensures
        match r {
            Ok(_) => status != 404,
            Err(e) => status == 404 && is_not_found(e, wanted, url@),
        },
{
    if status == 404 {
        Err(not_found(wanted, url))
    } else {
        Ok(())
    }
}

/// The name of the temporary folder of one operation on a package:
/// `{bin_name}-{millis}`, with the time in milliseconds since the epoch.
pub open spec fn temp_dir_name(bin_name: Seq<char>, millis: u64) -> Seq<char> {
    bin_name + seq!['-'] + decimal(millis as nat)
}

/// Names the temporary folder of an operation that starts at `millis`.
pub fn make_bin_temp_dir(bin_name: &str, millis: u64) -> (r: String)
    ensures
        r@ == temp_dir_name(bin_name@, millis),
{
    let mut out = String::from_str(bin_name);
    out.push('-');
    push_decimal(&mut out, millis);
    proof {
        assert(out@ =~= temp_dir_name(bin_name@, millis));
    }
    out
}

/// The text of an install record.
pub open spec fn install_toml_content(repo: Seq<char>, stream: Seq<char>, version: VersionView) -> Seq<
    char,
> {
    "[install]\t\t\nrepo = \""@ + repo + "\"\nstream = \""@ + stream + "\"\nversion = \""@
        + version_text(version) + "\"\n"@
}

/// Writes the text of an install record: where the package came from, its
/// stream and its version.
pub fn create_install_toml_content(repo: &str, stream: &str, version: &Version) -> (r: String)
    ensures
        r@ == install_toml_content(repo@, stream@, version@),
{
    let mut out = String::from_str("[install]\t\t\nrepo = \"");
    out.append(repo);
    out.append("\"\nstream = \"");
    out.append(stream);
    out.append("\"\nversion = \"");
    let text = version.to_text();
    out.append(text.as_str());
    out.append("\"\n");
    out
}

/// The install record of a package directory: the path of the file,
/// `{package_dir}/install.toml`, and its text.
pub fn create_install_toml(package_dir: &str, repo: &str, stream: &str, version: &Version) -> (r: (
    String,
    String,
))
    ensures
        r.0@ == path_join(package_dir@, "install.toml"@),
        r.1@ == install_toml_content(repo@, stream@, version@),
{
    let install_content = create_install_toml_content(repo, stream, version);
    let install_path = join_path(package_dir, "install.toml");
    (install_path, install_content)
}

/// The files of one installed version, all below its package directory.
pub struct PackageFiles {
    /// The downloaded archive: `{package_dir}/{bin_name}.tar.gz`.
    pub gz_path: String,
    /// The decompressed archive, removed after unpacking:
    /// `{package_dir}/{bin_name}.tar`.
    pub tar_path: String,
    /// Where the archive is unpacked: `{package_dir}/unpacked`.
    pub unpacked_dir: String,
    /// The unpacked binary: `{package_dir}/unpacked/{bin_name}`.
    pub unpacked_bin: String,
    /// The install record: `{package_dir}/install.toml`.
    pub install_toml: String,
}

/// Lays out the files of one installed version.
pub fn package_files(package_dir: &str, bin_name: &str) -> (r: PackageFiles)
    ensures
        r.gz_path@ == path_join(package_dir@, bin_name@ + ".tar.gz"@),
        r.tar_path@ == path_join(package_dir@, bin_name@ + ".tar"@),
        r.unpacked_dir@ == path_join(package_dir@, "unpacked"@),
        r.unpacked_bin@ == path_join(path_join(package_dir@, "unpacked"@), bin_name@),
        r.install_toml@ == path_join(package_dir@, "install.toml"@),
{
    let gz_name = concat(bin_name, ".tar.gz");
    let tar_name = concat(bin_name, ".tar");
    let unpacked_dir = join_path(package_dir, "unpacked");
    let unpacked_bin = join_path(unpacked_dir.as_str(), bin_name);
    PackageFiles {
        gz_path: join_path(package_dir, gz_name.as_str()),
        tar_path: join_path(package_dir, tar_name.as_str()),
        unpacked_dir,
        unpacked_bin,
        install_toml: join_path(package_dir, "install.toml"),
    }
}

/// Where the link to an installed binary goes, given whether the unpacked
/// binary is a file: without it there is nothing to link to, and the failure
/// names the place where it should be.
pub fn create_bin_symlink(bin_dir: &str, bin_name: &str, unpacked_bin: &str, unpacked_is_file: bool) -> (r:
    Result<String, Error>)
    ensures
        match r {
            Ok(link) => unpacked_is_file && link@ == path_join(bin_dir@, bin_name@),
            Err(Error::UnpackedBinFileNotFound(p)) => !unpacked_is_file && p@ == unpacked_bin@,
            Err(_) => false,
        },
{
    if !unpacked_is_file {
        return Err(Error::UnpackedBinFileNotFound(String::from_str(unpacked_bin)));
    }
    Ok(join_path(bin_dir, bin_name))
}


/// Where an install stands. The steps follow one another in the order in
/// which they are listed; `Done` and `Failed` end the install.
#[derive(Debug)]
pub enum InstallState {
    ResolvingVersion,
    Downloading,
    Unpacking,
    WritingInstallRecord,
    Symlinking,
    Done,
    Failed(Error),
}

/// What the caller is to do next.
#[derive(Debug, Clone, Copy, PartialEq, Eq, Structural)]
pub enum InstallAction {
    /// Fetch the stream's metadata document and read the latest version.
    ResolveVersion,
    /// Fetch the version's archive into the temporary folder.
    Download,
    /// Decompress and unpack the archive into the package directory.
    Unpack,
    /// Write the install record into the package directory.
    WriteInstallRecord,
    /// Point the link in the bin directory at the unpacked binary.
    Symlink,
    /// Remove the temporary folder: the install has just ended.
    RemoveTempDir,
    /// Nothing is left to do.
    Nothing,
}

impl InstallState {
    /// Whether the install has ended.
    pub open spec fn is_terminal(&self) -> bool {
        self is Done || self is Failed
    }

    /// The state after a step that succeeded.
    pub open spec fn successor(self) -> InstallState {
        match self {
            InstallState::ResolvingVersion => InstallState::Downloading,
            InstallState::Downloading => InstallState::Unpacking,
            InstallState::Unpacking => InstallState::WritingInstallRecord,
            InstallState::WritingInstallRecord => InstallState::Symlinking,
            InstallState::Symlinking => InstallState::Done,
            InstallState::Done => InstallState::Done,
            InstallState::Failed(e) => InstallState::Failed(e),
        }
    }

    /// The state after the step of this state ended with `outcome`: a success
    /// leads to the next step, a failure to `Failed` with its reason, and an
    /// install that has ended stays as it is.
    pub open spec fn next_spec(self, outcome: Result<(), Error>) -> InstallState {
        if self.is_terminal() {
            self
        } else {
            match outcome {
                Ok(_) => self.successor(),
                Err(e) => InstallState::Failed(e),
            }
        }
    }

    /// The work of a state.
    pub open spec fn work(&self) -> InstallAction {
        match self {
            InstallState::ResolvingVersion => InstallAction::ResolveVersion,
            InstallState::Downloading => InstallAction::Download,
            InstallState::Unpacking => InstallAction::Unpack,
            InstallState::WritingInstallRecord => InstallAction::WriteInstallRecord,
            InstallState::Symlinking => InstallAction::Symlink,
            InstallState::Done => InstallAction::Nothing,
            InstallState::Failed(_) => InstallAction::Nothing,
        }
    }

    /// What is to be done on arriving in `next` from this state: the work of
    /// `next`, or, where the install ends with this very step, the removal of
    /// the temporary folder.
    pub open spec fn action_on(&self, next: &InstallState) -> InstallAction {
        if next.is_terminal() && !self.is_terminal() {
            InstallAction::RemoveTempDir
        } else {
            next.work()
        }
    }

    /// The state in which every install begins, and its work.
    pub fn start() -> (r: (InstallState, InstallAction))
        ensures
            r.0 is ResolvingVersion,
            r.1 == InstallAction::ResolveVersion,
    {
        (InstallState::ResolvingVersion, InstallAction::ResolveVersion)
    }

    /// Whether the install has ended.
    pub fn ended(&self) -> (r: bool)
        ensures
            r == self.is_terminal(),
    {
        match self {
            InstallState::Done => true,
            InstallState::Failed(_) => true,
            _ => false,
        }
    }

    /// Takes the outcome of the step of this state and gives the next state
    /// with what is to be done there.
    pub fn step(self, outcome: Result<(), Error>) -> (r: (InstallState, InstallAction))
        ensures
            r.0 == self.next_spec(outcome),
            r.1 == self.action_on(&r.0),
    {
        match self {
            InstallState::Done => (InstallState::Done, InstallAction::Nothing),
            InstallState::Failed(e) => (InstallState::Failed(e), InstallAction::Nothing),
            running => match outcome {
                Err(e) => (InstallState::Failed(e), InstallAction::RemoveTempDir),
                Ok(_) => match running {
                    InstallState::ResolvingVersion => (
                        InstallState::Downloading,
                        InstallAction::Download,
                    ),
                    InstallState::Downloading => (InstallState::Unpacking, InstallAction::Unpack),
                    InstallState::Unpacking => (
                        InstallState::WritingInstallRecord,
                        InstallAction::WriteInstallRecord,
                    ),
                    InstallState::WritingInstallRecord => (
                        InstallState::Symlinking,
                        InstallAction::Symlink,
                    ),
                    _ => (InstallState::Done, InstallAction::RemoveTempDir),
                },
            },
        }
    }

    /// How the install went, once it has ended: its own failure, or none.
    pub open spec fn outcome(self) -> Result<(), Error> {
        match self {
            InstallState::Failed(e) => Err(e),
            _ => Ok(()),
        }
    }

    /// Every failure of an install that has ended, given how the removal of
    /// the temporary folder went: see [`close_operation`].
    pub fn finish(self, removal: Result<(), Error>) -> (r: Vec<Error>)
        requires
            self.is_terminal(),
        ensures
            r@ == failures_of(self.outcome(), removal),
    {
        match self {
            InstallState::Failed(e) => close_operation(Err(e), removal),
            _ => close_operation(Ok(()), removal),
        }
    }
}

/// The failures of an operation that worked in a temporary folder, given how
/// the operation went and how the removal of the folder went afterwards: the
/// operation's own failure first, then the removal's. A removal that failed
/// or was refused is a failure even where the operation had failed before.
pub open spec fn failures_of(outcome: Result<(), Error>, removal: Result<(), Error>) -> Seq<Error> {
    (match outcome {
        Err(e) => seq![e],
        Ok(_) => Seq::empty(),
    }) + (match removal {
        Err(e) => seq![e],
        Ok(_) => Seq::empty(),
    })
}

/// Every failure of an operation that worked in a temporary folder, in
/// order; none where the operation and the removal of the folder both went
/// well.
pub fn close_operation(outcome: Result<(), Error>, removal: Result<(), Error>) -> (r: Vec<Error>)
    ensures
        r@ == failures_of(outcome, removal),
{
    let mut failures: Vec<Error> = Vec::new();
    if let Err(e) = outcome {
        failures.push(e);
    }
    if let Err(e) = removal {
        failures.push(e);
    }
    proof {
        assert(failures@ =~= failures_of(outcome, removal));
    }
    failures
}

/// The install record is written before the link is made: the only way into
/// `Symlinking` is a success in `WritingInstallRecord`.
pub proof fn lemma_record_precedes_symlink(state: InstallState, outcome: Result<(), Error>)
    requires
        state.next_spec(outcome) is Symlinking,
    ensures
        state is WritingInstallRecord,
        outcome is Ok,
{
}

/// A failure ends the install from every step, with the failure's reason.
pub proof fn lemma_failure_ends_install(state: InstallState, reason: Error)
    requires
        !state.is_terminal(),
    ensures
        state.next_spec(Err(reason)) == InstallState::Failed(reason),
        state.action_on(&state.next_spec(Err(reason))) == InstallAction::RemoveTempDir,
{
}

/// Every step that ends the install asks for the removal of the temporary
/// folder, whether the install succeeded or failed.
pub proof fn lemma_every_exit_removes_temp_dir(state: InstallState, outcome: Result<(), Error>)
    requires
        !state.is_terminal(),
        state.next_spec(outcome).is_terminal(),
    ensures
        state.action_on(&state.next_spec(outcome)) == InstallAction::RemoveTempDir,
{
}

/// Five successes in a row lead from the first step to `Done`, and no fewer.
pub proof fn lemma_install_runs_five_steps()
    ensures
        InstallState::ResolvingVersion.successor().successor().successor().successor().successor()
            is Done,
        !InstallState::ResolvingVersion.successor().successor().successor().successor().is_terminal(),
{
}

} // verus!
