//! Publishing: the documents that go with an archive, and where each file of
//! a publish goes, in the order in which they are sent.

use vstd::prelude::*;
use crate::repo::bin_repo::{target_uri, BinRepo};
use crate::repo::error::Error;
use crate::repo::repo_info::RepoInfo;
use crate::text::{concat, join_path, path_join, slash_join, slashed};
use crate::utils::{clean_path, clean_path_spec};
use crate::version::{
    extract_stream, get_version_part, stream_of, version_part, version_text, Version, VersionView,
};

verus! {

/// A file of a publish.
#[derive(Debug, Clone, Copy, PartialEq, Eq, Structural)]
pub enum Artifact {
    /// The metadata document that names the stream's latest version.
    Latest,
    /// The compressed archive.
    Archive,
    /// The metadata document that describes the package.
    PackageToml,
}

/// One transfer of a publish: the file, and the path or key it goes to.
#[derive(Debug)]
pub struct UploadStep {
    pub artifact: Artifact,
    pub dest: String,
}

impl View for UploadStep {
    type V = (Artifact, Seq<char>);

    open spec fn view(&self) -> (Artifact, Seq<char>) {
        (self.artifact, self.dest@)
    }
}

/// The values of a list of transfers.
pub open spec fn step_views(steps: Seq<UploadStep>) -> Seq<(Artifact, Seq<char>)> {
    steps.map_values(|s: UploadStep| s@)
}

/// The text of the document that names a stream's latest version.
pub open spec fn latest_toml_content(version: VersionView) -> Seq<char> {
    "[latest]\nversion = \""@ + version_text(version) + "\""@
}

/// The text of the document that describes a published package.
pub open spec fn package_toml_content(
    bin_name: Seq<char>,
    stream: Seq<char>,
    path: Option<&str>,
    version: VersionView,
) -> Seq<char> {
    "[package]\nname = \""@ + bin_name + "\"\t\t\nstream = \""@ + stream + "\"\nversion = \""@
        + version_text(version) + "\"\n"@ + (match path {
        Some(p) => "path = \""@ + p@ + "\"\n"@,
        None => Seq::empty(),
    })
}

/// The stream of a version, or the named path that stands in for it.
pub open spec fn path_or_stream(at_path: Option<&str>, version: VersionView) -> Seq<char> {
    match at_path {
        Some(p) => p@,
        None => stream_of(version.pre),
    }
}

/// The transfers of a publish to a local repository, in order. For a stream
/// the latest-version document goes first, into the stream's directory, and
/// the archive and the package document follow into the version's directory
/// below it. For a named path there is no latest-version document, and both
/// files go into the directory of that path.
pub open spec fn local_upload_steps(
    origin: Seq<char>,
    bin_name: Seq<char>,
    target: Seq<char>,
    at_path: Option<&str>,
    version: VersionView,
) -> Seq<(Artifact, Seq<char>)> {
    let dir = path_join(origin, target_uri(bin_name, target, path_or_stream(at_path, version)));
    if at_path is Some {
        seq![
            (Artifact::Archive, path_join(dir, bin_name + ".tar.gz"@)),
            (Artifact::PackageToml, path_join(dir, bin_name + ".toml"@)),
        ]
    } else {
        let package_dir = path_join(dir, version_part(version));
        seq![
            (Artifact::Latest, path_join(dir, "latest.toml"@)),
            (Artifact::Archive, path_join(package_dir, bin_name + ".tar.gz"@)),
            (Artifact::PackageToml, path_join(package_dir, bin_name + ".toml"@)),
        ]
    }
}

/// The transfers of a publish to an S3 repository, in order, with cleaned
/// keys below the repository's root. For a stream the latest-version
/// document goes first, under the stream's key, and the archive and the
/// package document follow under the version's key below it. For a named path
/// there is no latest-version document, and both files go under that path.
pub open spec fn s3_upload_steps(
    bin_name: Seq<char>,
    target: Seq<char>,
    at_path: Option<&str>,
    version: VersionView,
) -> Seq<(Artifact, Seq<char>)> {
    let key = target_uri(bin_name, target, path_or_stream(at_path, version));
    if at_path is Some {
        seq![
            (Artifact::Archive, clean_path_spec(slashed(key, bin_name + ".tar.gz"@))),
            (Artifact::PackageToml, clean_path_spec(slashed(key, bin_name + ".toml"@))),
        ]
    } else {
        let package_key = slashed(key, version_part(version));
        seq![
            (Artifact::Latest, clean_path_spec(slashed(key, "latest.toml"@))),
            (Artifact::Archive, clean_path_spec(slashed(package_key, bin_name + ".tar.gz"@))),
            (Artifact::PackageToml, clean_path_spec(slashed(package_key, bin_name + ".toml"@))),
        ]
    }
}

/// Writes the text of the document that names a stream's latest version.
pub fn create_latest_toml_content(version: &Version) -> (r: String)
    ensures
        r@ == latest_toml_content(version@),
{
    let mut out = String::from_str("[latest]\nversion = \"");
    let text = version.to_text();
    out.append(text.as_str());
    out.append("\"");
    out
}

/// Writes the text of the document that describes a published package.
pub fn create_package_toml_content(
    bin_name: &str,
    stream: &str,
    path: Option<&str>,
    version: &Version,
) -> (r: String)
    ensures
        r@ == package_toml_content(bin_name@, stream@, path, version@),
{
    let mut content = String::from_str("[package]\nname = \"");
    content.append(bin_name);
    content.append("\"\t\t\nstream = \"");
    content.append(stream);
    content.append("\"\nversion = \"");
    let text = version.to_text();
    content.append(text.as_str());
    content.append("\"\n");
    let ghost head = content@;
    match path {
        Some(p) => {
            content.append("path = \"");
            content.append(p);
            content.append("\"\n");
            proof {
                assert(content@ =~= head + ("path = \""@ + p@ + "\"\n"@));
            }
        },
        None => {
            proof {
                assert(content@ =~= head + Seq::<char>::empty());
            }
        },
    }
    content
}

/// The files that a publish stages in its temporary folder.
pub struct StagedFiles {
    /// Where the binary is copied to before it is packed: `{tmp_dir}/to_pack`.
    pub to_pack_dir: String,
    /// The copy of the binary: `{tmp_dir}/to_pack/{bin_name}`.
    pub to_pack_file: String,
    /// The latest-version document: `{tmp_dir}/latest.toml`.
    pub latest_toml: String,
    /// The package document: `{tmp_dir}/package.toml`.
    pub package_toml: String,
    /// The archive before compression: `{tmp_dir}/{bin_name}.tar`.
    pub tar_path: String,
    /// The compressed archive: `{tmp_dir}/{bin_name}.tar.gz`.
    pub gz_path: String,
}

/// Lays out the files that a publish stages in its temporary folder.
pub fn staged_files(tmp_dir: &str, bin_name: &str) -> (r: StagedFiles)
    ensures
        r.to_pack_dir@ == path_join(tmp_dir@, "to_pack"@),
        r.to_pack_file@ == path_join(path_join(tmp_dir@, "to_pack"@), bin_name@),
        r.latest_toml@ == path_join(tmp_dir@, "latest.toml"@),
        r.package_toml@ == path_join(tmp_dir@, "package.toml"@),
        r.tar_path@ == path_join(tmp_dir@, bin_name@ + ".tar"@),
        r.gz_path@ == path_join(tmp_dir@, bin_name@ + ".tar.gz"@),
{
    let to_pack_dir = join_path(tmp_dir, "to_pack");
    let to_pack_file = join_path(to_pack_dir.as_str(), bin_name);
    let tar_name = concat(bin_name, ".tar");
    let gz_name = concat(bin_name, ".tar.gz");
    StagedFiles {
        to_pack_dir,
        to_pack_file,
        latest_toml: join_path(tmp_dir, "latest.toml"),
        package_toml: join_path(tmp_dir, "package.toml"),
        tar_path: join_path(tmp_dir, tar_name.as_str()),
        gz_path: join_path(tmp_dir, gz_name.as_str()),
    }
}

/// The arguments of the release build: `build --release`, and the target
/// where one is given.
pub fn build_args(target: Option<&str>) -> (r: Vec<String>)
    ensures
        r@.len() == (if target is Some { 4int } else { 2int }),
        r@[0]@ == "build"@,
        r@[1]@ == "--release"@,
        target matches Some(t) ==> r@[2]@ == "--target"@ && r@[3]@ == t@,
{
    let mut args: Vec<String> = Vec::new();
    args.push(String::from_str("build"));
    args.push(String::from_str("--release"));
    if let Some(t) = target {
        args.push(String::from_str("--target"));
        args.push(String::from_str(t));
    }
    args
}

/// The path of the release binary: `./target/release/{name}`, or
/// `./target/{target}/release/{name}` for a build for another target.
pub open spec fn release_bin_path(name: Seq<char>, target: Option<String>) -> Seq<char> {
    match target {
        Some(t) => path_join(path_join(path_join("./target"@, t@), "release"@), name),
        None => path_join("./target/release"@, name),
    }
}

/// Where the release build leaves the binary.
pub fn release_bin_file(name: &str, target: &Option<String>) -> (r: String)
    ensures
        r@ == release_bin_path(name@, *target),
{
    match target {
        Some(t) => {
            let dir = join_path("./target", t.as_str());
            let release = join_path(dir.as_str(), "release");
            join_path(release.as_str(), name)
        },
        None => join_path("./target/release", name),
    }
}

/// The release binary to pack, given whether a file stands at its path: a
/// missing one is `NoReleaseBinFile`.
pub fn get_release_bin(name: &str, target: &Option<String>, is_file: bool) -> (r: Result<
    String,
    Error,
>)
    ensures
        match r {
            Ok(path) => is_file && path@ == release_bin_path(name@, *target),
            Err(Error::NoReleaseBinFile) => !is_file,
            Err(_) => false,
        },
{
    if is_file {
        Ok(release_bin_file(name, target))
    } else {
        Err(Error::NoReleaseBinFile)
    }
}

impl BinRepo {
    /// Whether this package can be published: never to an HTTP repository.
    pub open spec fn publishable(&self) -> bool {
        !(self.publish_repo is Http)
    }

    /// The transfers of a publish of `version`, in order, by the kind of the
    /// publish repository.
    pub open spec fn publish_steps(
        &self,
        os_target: Seq<char>,
        at_path: Option<&str>,
        version: VersionView,
    ) -> Seq<(Artifact, Seq<char>)> {
        match self.publish_repo {
            RepoInfo::Local(origin) => local_upload_steps(
                origin@,
                self.bin_name@,
                self.target_or(os_target),
                at_path,
                version,
            ),
            RepoInfo::S3(_) => s3_upload_steps(
                self.bin_name@,
                self.target_or(os_target),
                at_path,
                version,
            ),
            RepoInfo::Http(_) => Seq::empty(),
        }
    }

    /// Refuses a publish to an HTTP repository; the caller asks before it
    /// builds or packs anything.
    pub fn check_publishable(&self) -> (r: Result<(), Error>)
        ensures
            match r {
                Ok(_) => self.publishable(),
                Err(Error::HttpProtocolNotSupportedForPublish) => !self.publishable(),
                Err(_) => false,
            },
    {
        match &self.publish_repo {
            RepoInfo::Http(_) => Err(Error::HttpProtocolNotSupportedForPublish),
            _ => Ok(()),
        }
    }

    /// The transfers of a publish to the local repository at `origin_repo`.
    pub fn upload_to_local(
        &self,
        origin_repo: &str,
        os_target: &str,
        at_path: Option<&str>,
        version: &Version,
    ) -> (r: Vec<UploadStep>)
        ensures
            step_views(r@) == local_upload_steps(
                origin_repo@,
                self.bin_name@,
                self.target_or(os_target@),
                at_path,
                version@,
            ),
    {
        let stream = extract_stream(version);
        let path_or_stream = match at_path {
            Some(p) => p,
            None => stream.as_str(),
        };
        let uri = self.origin_bin_target_uri(os_target, path_or_stream);
        let origin_target_dir = join_path(origin_repo, uri.as_str());
        let gz_name = concat(self.bin_name.as_str(), ".tar.gz");
        let toml_name = concat(self.bin_name.as_str(), ".toml");
        let mut steps: Vec<UploadStep> = Vec::new();
        let package_dir = if at_path.is_some() {
            origin_target_dir
        } else {
            steps.push(
                UploadStep {
                    artifact: Artifact::Latest,
                    dest: join_path(origin_target_dir.as_str(), "latest.toml"),
                },
            );
            let part = get_version_part(version);
            join_path(origin_target_dir.as_str(), part.as_str())
        };
        steps.push(
            UploadStep {
                artifact: Artifact::Archive,
                dest: join_path(package_dir.as_str(), gz_name.as_str()),
            },
        );
        steps.push(
            UploadStep {
                artifact: Artifact::PackageToml,
                dest: join_path(package_dir.as_str(), toml_name.as_str()),
            },
        );
        proof {
            assert(step_views(steps@) =~= local_upload_steps(
                origin_repo@,
                self.bin_name@,
                self.target_or(os_target@),
                at_path,
                version@,
            ));
        }
        steps
    }

    /// The transfers of a publish to an S3 repository.
    pub fn upload_to_s3(&self, os_target: &str, at_path: Option<&str>, version: &Version) -> (r:
        Vec<UploadStep>)
        ensures
            step_views(r@) == s3_upload_steps(
                self.bin_name@,
                self.target_or(os_target@),
                at_path,
                version@,
            ),
    {
        let stream = extract_stream(version);
        let path_or_stream = match at_path {
            Some(p) => p,
            None => stream.as_str(),
        };
        let origin_target_key = self.origin_bin_target_uri(os_target, path_or_stream);
        let gz_name = concat(self.bin_name.as_str(), ".tar.gz");
        let toml_name = concat(self.bin_name.as_str(), ".toml");
        let mut steps: Vec<UploadStep> = Vec::new();
        let package_key = if at_path.is_some() {
            origin_target_key
        } else {
            let latest = slash_join(origin_target_key.as_str(), "latest.toml");
            steps.push(UploadStep { artifact: Artifact::Latest, dest: clean_path(latest.as_str()) });
            let part = get_version_part(version);
            slash_join(origin_target_key.as_str(), part.as_str())
        };
        let gz_key = slash_join(package_key.as_str(), gz_name.as_str());
        steps.push(UploadStep { artifact: Artifact::Archive, dest: clean_path(gz_key.as_str()) });
        let toml_key = slash_join(package_key.as_str(), toml_name.as_str());
        steps.push(
            UploadStep { artifact: Artifact::PackageToml, dest: clean_path(toml_key.as_str()) },
        );
        proof {
            assert(step_views(steps@) =~= s3_upload_steps(
                self.bin_name@,
                self.target_or(os_target@),
                at_path,
                version@,
            ));
        }
        steps
    }

    /// Plans a publish of `version`: refuses an HTTP repository, and else
    /// gives the transfers in the order in which they are to be made.
    pub fn publish(&self, os_target: &str, at_path: Option<&str>, version: &Version) -> (r: Result<
        Vec<UploadStep>,
        Error,
    >)
        ensures
            match r {
                Ok(steps) => self.publishable() && step_views(steps@) == self.publish_steps(
                    os_target@,
                    at_path,
                    version@,
                ),
                Err(Error::HttpProtocolNotSupportedForPublish) => !self.publishable(),
                Err(_) => false,
            },
    {
        match &self.publish_repo {
            RepoInfo::Local(local_repo) => Ok(
                self.upload_to_local(local_repo.as_str(), os_target, at_path, version),
            ),
            RepoInfo::S3(_) => Ok(self.upload_to_s3(os_target, at_path, version)),
            RepoInfo::Http(_) => Err(Error::HttpProtocolNotSupportedForPublish),
        }
    }
}

/// A publish to a stream sends the latest-version document first and the
/// archive after it; a publish to a named path sends no such document.
pub proof fn lemma_latest_goes_first(
    repo: BinRepo,
    os_target: Seq<char>,
    at_path: Option<&str>,
    version: VersionView,
)
    requires
        repo.publishable(),
    ensures
        at_path is None ==> {
            &&& repo.publish_steps(os_target, at_path, version).len() == 3
            &&& repo.publish_steps(os_target, at_path, version)[0].0 == Artifact::Latest
            &&& repo.publish_steps(os_target, at_path, version)[1].0 == Artifact::Archive
        },
        at_path is Some ==> forall|i: int|
            0 <= i < repo.publish_steps(os_target, at_path, version).len() ==> (
            #[trigger] repo.publish_steps(os_target, at_path, version)[i]).0 != Artifact::Latest,
{
}

} // verus!
