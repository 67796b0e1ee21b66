//! One package's view of its repositories, and the keys, paths and URLs of
//! what a repository holds for it.

use vstd::prelude::*;
use crate::repo::error::Error;
use crate::repo::repo_info::{location_ok, owned, same_text, RepoInfo, S3Info};
use crate::repo::s3w::{full_key, get_full_key_and_s3_url, s3_url_of};
use crate::text::{concat, join_path, path_join, slash_join, slashed};
use crate::version::{get_version_part, version_part, Version, VersionView};

verus! {

/// A package together with the repository it is installed from, the one it is
/// published to, and the platform target where one was given.
#[derive(Debug)]
pub struct BinRepo {
    pub bin_name: String,
    pub install_repo: RepoInfo,
    pub publish_repo: RepoInfo,
    pub target: Option<String>,
}

/// The name of the metadata document that names a stream's latest version.
pub const LATEST_TOML: &'static str = "latest.toml";

/// Where a repository keeps a package for a platform target, by stream or by
/// named path: `{bin_name}/{target}/{stream_or_path}`.
pub open spec fn target_uri(bin_name: Seq<char>, target: Seq<char>, stream_or_path: Seq<char>) -> Seq<
    char,
> {
    slashed(slashed(bin_name, target), stream_or_path)
}

/// The file name of a package's archive.
pub open spec fn gz_name(bin_name: Seq<char>) -> Seq<char> {
    bin_name + ".tar.gz"@
}

/// The key of a version's archive:
/// `{bin_name}/{target}/{stream}/v{version}/{bin_name}.tar.gz`.
pub open spec fn gz_key(
    bin_name: Seq<char>,
    target: Seq<char>,
    stream: Seq<char>,
    version: VersionView,
) -> Seq<char> {
    slashed(slashed(target_uri(bin_name, target, stream), version_part(version)), gz_name(bin_name))
}

/// The key of a stream's metadata document:
/// `{bin_name}/{target}/{stream}/latest.toml`.
pub open spec fn latest_key(bin_name: Seq<char>, target: Seq<char>, stream: Seq<char>) -> Seq<
    char,
> {
    slashed(target_uri(bin_name, target, stream), "latest.toml"@)
}

/// The path of a version's archive in a local repository.
pub open spec fn local_gz_path(
    origin: Seq<char>,
    bin_name: Seq<char>,
    target: Seq<char>,
    stream: Seq<char>,
    version: VersionView,
) -> Seq<char> {
    path_join(
        path_join(path_join(origin, target_uri(bin_name, target, stream)), version_part(version)),
        gz_name(bin_name),
    )
}

/// The path of a stream's metadata document in a local repository.
pub open spec fn local_latest_path(
    origin: Seq<char>,
    bin_name: Seq<char>,
    target: Seq<char>,
    stream: Seq<char>,
) -> Seq<char> {
    path_join(path_join(origin, target_uri(bin_name, target, stream)), "latest.toml"@)
}

/// Where a file of a repository is fetched from.
#[derive(Debug)]
pub enum Source {
    /// A file of the local file system, by its path.
    LocalFile(String),
    /// An object of a bucket, by its key in the bucket, with the URL that
    /// reports show for it and the credentials profile to use.
    S3Object { bucket: String, key: String, url: String, profile: Option<String> },
    /// A resource fetched over HTTP, by its URL.
    HttpUrl(String),
}

impl BinRepo {
    /// Where the file with the key `key` below the root of the install
    /// repository is fetched from, `local_path` being its path in a local
    /// repository.
    pub open spec fn source_of(&self, key: Seq<char>, local_path: Seq<char>, source: Source) -> bool {
        match self.install_repo {
            RepoInfo::Local(_) => source matches Source::LocalFile(path) && path@ == local_path,
            RepoInfo::S3(info) => source matches Source::S3Object {
                bucket,
                key: object_key,
                url,
                profile,
            } && bucket@ == info.bucket@ && object_key@ == full_key(info.base@, key) && url@
                == s3_url_of(info.bucket@, key) && profile == info.profile,
            RepoInfo::Http(base) => source matches Source::HttpUrl(url) && url@ == slashed(
                base@,
                key,
            ),
        }
    }

    /// The platform target in force: the one given, else the host's.
    pub open spec fn target_or(&self, os_target: Seq<char>) -> Seq<char> {
        match self.target {
            Some(t) => t@,
            None => os_target,
        }
    }

    /// Where the archive of `version` can be fetched from, by the kind of the
    /// install repository.
    pub open spec fn origin_url_spec(
        &self,
        os_target: Seq<char>,
        stream: Seq<char>,
        version: VersionView,
    ) -> Seq<char> {
        let target = self.target_or(os_target);
        match self.install_repo {
            RepoInfo::Local(origin) => local_gz_path(origin@, self.bin_name@, target, stream, version),
            RepoInfo::S3(info) => s3_url_of(
                info.bucket@,
                gz_key(self.bin_name@, target, stream, version),
            ),
            RepoInfo::Http(base) => slashed(base@, gz_key(self.bin_name@, target, stream, version)),
        }
    }

    /// Sets up the repositories of a package. With a location text both
    /// repositories are what the text stands for, and a malformed text is
    /// refused; without one they are the hosted repository's. A platform
    /// target is kept only for publishing.
    pub fn new(
        bin_name: &str,
        repo: Option<&str>,
        profile: Option<&str>,
        target: Option<&str>,
        publish: bool,
    ) -> (r: Result<BinRepo, Error>)
        ensures
            match r {
                Ok(b) => {
                    &&& b.bin_name@ == bin_name@
                    &&& if publish {
                        same_text(target, b.target)
                    } else {
                        b.target.is_none()
                    }
                    &&& match repo {
                        Some(text) => {
                            &&& location_ok(text@)
                            &&& b.install_repo.describes(text@, profile)
                            &&& b.publish_repo.describes(text@, profile)
                        },
                        None => {
                            &&& b.install_repo.is_default_install_repo()
                            &&& b.publish_repo.is_default_publish_repo()
                        },
                    }
                },
                Err(Error::RepoInvalidS3(text)) => repo matches Some(given) && !location_ok(given@)
                    && text@ == given@,
                Err(_) => false,
            },
    {
        let target = if publish {
            owned(target)
        } else {
            None
        };
        let (install_repo, publish_repo) = match repo {
            Some(text) => {
                let install_repo = match RepoInfo::from_repo_string(text, profile) {
                    Ok(info) => info,
                    Err(e) => { return Err(e); },
                };
                let publish_repo = match RepoInfo::from_repo_string(text, profile) {
                    Ok(info) => info,
                    Err(e) => { return Err(e); },
                };
                (install_repo, publish_repo)
            },
            None => (RepoInfo::binst_install_repo(), RepoInfo::binst_publish_repo()),
        };
        Ok(BinRepo { bin_name: String::from_str(bin_name), install_repo, publish_repo, target })
    }

    /// The repository-relative location of the package for the target in
    /// force: `{bin_name}/{target}/{stream_or_path}`.
    pub fn origin_bin_target_uri(&self, os_target: &str, stream_or_path: &str) -> (r: String)
        ensures
            r@ == target_uri(self.bin_name@, self.target_or(os_target@), stream_or_path@),
    {
        let target = match &self.target {
            Some(t) => t.as_str(),
            None => os_target,
        };
        let head = slash_join(self.bin_name.as_str(), target);
        slash_join(head.as_str(), stream_or_path)
    }

    /// The archive's file name and its key below the repository's root.
    pub fn get_name_and_key(&self, os_target: &str, stream: &str, version: &Version) -> (r: (
        String,
        String,
    ))
        ensures
            r.0@ == gz_name(self.bin_name@),
            r.1@ == gz_key(self.bin_name@, self.target_or(os_target@), stream@, version@),
    {
        let uri = self.origin_bin_target_uri(os_target, stream);
        let part = get_version_part(version);
        let origin_version_key = slash_join(uri.as_str(), part.as_str());
        let gz_name = concat(self.bin_name.as_str(), ".tar.gz");
        let gz_key = slash_join(origin_version_key.as_str(), gz_name.as_str());
        (gz_name, gz_key)
    }

    /// The key of the stream's metadata document below the repository's root.
    pub fn latest_toml_key(&self, os_target: &str, stream: &str) -> (r: String)
        ensures
            r@ == latest_key(self.bin_name@, self.target_or(os_target@), stream@),
    {
        let uri = self.origin_bin_target_uri(os_target, stream);
        slash_join(uri.as_str(), LATEST_TOML)
    }

    /// The URL of the stream's metadata document below an HTTP base URL.
    pub fn latest_toml_http_url(&self, http_base: &str, os_target: &str, stream: &str) -> (r:
        String)
        ensures
            r@ == slashed(
                http_base@,
                latest_key(self.bin_name@, self.target_or(os_target@), stream@),
            ),
    {
        let key = self.latest_toml_key(os_target, stream);
        slash_join(http_base, key.as_str())
    }

    /// The path of the stream's metadata document in a local repository.
    pub fn latest_toml_local_path(&self, local_repo_origin: &str, os_target: &str, stream: &str) -> (r:
        String)
        ensures
            r@ == local_latest_path(
                local_repo_origin@,
                self.bin_name@,
                self.target_or(os_target@),
                stream@,
            ),
    {
        let uri = self.origin_bin_target_uri(os_target, stream);
        let dir = join_path(local_repo_origin, uri.as_str());
        join_path(dir.as_str(), LATEST_TOML)
    }

    /// Where the stream's metadata document is fetched from: the same key in
    /// every kind of repository, below the directory, the prefix or the base
    /// URL of the repository.
    pub fn origin_latest_toml_source(&self, os_target: &str, stream: &str) -> (r: Source)
        ensures
            self.source_of(
                latest_key(self.bin_name@, self.target_or(os_target@), stream@),
                local_latest_path(
                    self.install_repo.url_spec(),
                    self.bin_name@,
                    self.target_or(os_target@),
                    stream@,
                ),
                r,
            ),
    {
        match &self.install_repo {
            RepoInfo::Local(origin) => Source::LocalFile(
                self.latest_toml_local_path(origin.as_str(), os_target, stream),
            ),
            RepoInfo::S3(info) => {
                let key = self.latest_toml_key(os_target, stream);
                let (object_key, url) = get_full_key_and_s3_url(info, key.as_str());
                Source::S3Object {
                    bucket: info.bucket.clone(),
                    key: object_key,
                    url,
                    profile: info.profile.clone(),
                }
            },
            RepoInfo::Http(base) => Source::HttpUrl(
                self.latest_toml_http_url(base.as_str(), os_target, stream),
            ),
        }
    }

    /// Where the archive of `version` is fetched from: the same key in every
    /// kind of repository, below the directory, the prefix or the base URL of
    /// the repository.
    pub fn origin_archive_source(&self, os_target: &str, stream: &str, version: &Version) -> (r:
        Source)
        ensures
            self.source_of(
                gz_key(self.bin_name@, self.target_or(os_target@), stream@, version@),
                local_gz_path(
                    self.install_repo.url_spec(),
                    self.bin_name@,
                    self.target_or(os_target@),
                    stream@,
                    version@,
                ),
                r,
            ),
    {
        match &self.install_repo {
            RepoInfo::Local(origin) => Source::LocalFile(
                self.origin_local_gz_path(origin.as_str(), os_target, stream, version),
            ),
            RepoInfo::S3(info) => {
                let (_, key) = self.get_name_and_key(os_target, stream, version);
                let (object_key, url) = get_full_key_and_s3_url(info, key.as_str());
                Source::S3Object {
                    bucket: info.bucket.clone(),
                    key: object_key,
                    url,
                    profile: info.profile.clone(),
                }
            },
            RepoInfo::Http(base) => {
                let (_, key) = self.get_name_and_key(os_target, stream, version);
                Source::HttpUrl(slash_join(base.as_str(), key.as_str()))
            },
        }
    }

    /// The URL of a version's archive below an HTTP base URL.
    pub fn get_origin_http_url(
        &self,
        http_base: &str,
        os_target: &str,
        stream: &str,
        version: &Version,
    ) -> (r: Result<String, Error>)
        ensures
            r matches Ok(url) && url@ == slashed(
                http_base@,
                gz_key(self.bin_name@, self.target_or(os_target@), stream@, version@),
            ),
    {
        let (_, key) = self.get_name_and_key(os_target, stream, version);
        Ok(slash_join(http_base, key.as_str()))
    }

    /// The S3 URL of a version's archive.
    pub fn get_origin_s3_url(
        &self,
        s3_info: &S3Info,
        os_target: &str,
        stream: &str,
        version: &Version,
    ) -> (r: Result<String, Error>)
        ensures
            r matches Ok(url) && url@ == s3_url_of(
                s3_info.bucket@,
                gz_key(self.bin_name@, self.target_or(os_target@), stream@, version@),
            ),
    {
        let (_, key) = self.get_name_and_key(os_target, stream, version);
        let (_key, s3_url) = get_full_key_and_s3_url(s3_info, key.as_str());
        Ok(s3_url)
    }

    /// The path of a version's archive in a local repository.
    pub fn origin_local_gz_path(
        &self,
        local_repo_origin: &str,
        os_target: &str,
        stream: &str,
        version: &Version,
    ) -> (r: String)
        ensures
            r@ == local_gz_path(
                local_repo_origin@,
                self.bin_name@,
                self.target_or(os_target@),
                stream@,
                version@,
            ),
    {
        let uri = self.origin_bin_target_uri(os_target, stream);
        let origin_target_dir = join_path(local_repo_origin, uri.as_str());
        let part = get_version_part(version);
        let origin_dir = join_path(origin_target_dir.as_str(), part.as_str());
        let gz_name = concat(self.bin_name.as_str(), ".tar.gz");
        join_path(origin_dir.as_str(), gz_name.as_str())
    }

    /// The path of a version's archive in a local repository, given whether a
    /// file stands there: a missing archive is `OriginTarGzNotFound`, which
    /// names the path.
    pub fn get_origin_local_path(
        &self,
        local_repo_origin: &str,
        os_target: &str,
        stream: &str,
        version: &Version,
        is_file: bool,
    ) -> (r: Result<String, Error>)
        ensures
            match r {
                Ok(path) => is_file && path@ == local_gz_path(
                    local_repo_origin@,
                    self.bin_name@,
                    self.target_or(os_target@),
                    stream@,
                    version@,
                ),
                Err(Error::OriginTarGzNotFound(path)) => !is_file && path@ == local_gz_path(
                    local_repo_origin@,
                    self.bin_name@,
                    self.target_or(os_target@),
                    stream@,
                    version@,
                ),
                Err(_) => false,
            },
    {
        let origin_gz = self.origin_local_gz_path(local_repo_origin, os_target, stream, version);
        if is_file {
            Ok(origin_gz)
        } else {
            Err(Error::OriginTarGzNotFound(origin_gz))
        }
    }

    /// Where the archive of `version` can be fetched from. For a local
    /// repository `local_gz_is_file` says whether the archive stands at its
    /// path; a missing one is `OriginTarGzNotFound`. The other kinds of
    /// repository are not asked.
    pub fn get_origin_url(
        &self,
        os_target: &str,
        stream_or_path: &str,
        version: &Version,
        local_gz_is_file: bool,
    ) -> (r: Result<String, Error>)
        ensures
            match r {
                Ok(url) => {
                    &&& url@ == self.origin_url_spec(os_target@, stream_or_path@, version@)
                    &&& self.install_repo is Local ==> local_gz_is_file
                },
                Err(Error::OriginTarGzNotFound(path)) => {
                    &&& self.install_repo is Local
                    &&& !local_gz_is_file
                    &&& path@ == self.origin_url_spec(os_target@, stream_or_path@, version@)
                },
                Err(_) => false,
            },
    {
        match &self.install_repo {
            RepoInfo::Local(local_repo_origin) => self.get_origin_local_path(
                local_repo_origin.as_str(),
                os_target,
                stream_or_path,
                version,
                local_gz_is_file,
            ),
            RepoInfo::S3(s3_info) => self.get_origin_s3_url(
                s3_info,
                os_target,
                stream_or_path,
                version,
            ),
            RepoInfo::Http(base_url) => self.get_origin_http_url(
                base_url.as_str(),
                os_target,
                stream_or_path,
                version,
            ),
        }
    }
}

} // verus!
