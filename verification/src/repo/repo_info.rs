//! Repository locations: a local directory, an S3 bucket or an HTTP base URL.

use vstd::prelude::*;
use crate::repo::error::Error;
use crate::text::{find_char_from, index_of_char_from, starts_with};
use crate::text::{lemma_first_occurrence, occurs_at};
use crate::utils::{
    clean_path, clean_path_spec, clean_segment, lemma_clean_path_idempotent,
    lemma_clean_segment_of_plain, scheme_sep,
};

verus! {

/// The hosted repository that installs read from by default.
pub const BINST_REPO_URL: &'static str = "https://repo.binst.io/";

/// The bucket of the hosted repository, which publishes go to by default.
pub const BINST_REPO_BUCKET: &'static str = "binst-repo";

/// The credentials profile for the hosted repository's bucket.
pub const BINST_REPO_AWS_PROFILE: &'static str = "binst-repo-user";

/// An S3 location: the text it was read from, the bucket, the key prefix below
/// which the repository lies (empty for the bucket's root) and the credentials
/// profile to use.
#[derive(Debug)]
pub struct S3Info {
    pub url: String,
    pub bucket: String,
    pub base: String,
    pub profile: Option<String>,
}

/// A repository location.
#[derive(Debug)]
pub enum RepoInfo {
    /// A directory of the local file system.
    Local(String),
    /// An S3 bucket and prefix.
    S3(S3Info),
    /// A base URL, for installs only.
    Http(String),
}

/// The scheme of an S3 location.
pub open spec fn s3_scheme() -> Seq<char> {
    seq!['s', '3', ':', '/', '/']
}

/// The bucket and the key prefix of an S3 location. The bucket is what stands
/// between the scheme and the next `/` and may not be empty; the prefix is
/// what follows that `/` and may not begin with another `/`.
pub open spec fn s3_location(url: Seq<char>) -> Option<(Seq<char>, Seq<char>)> {
    let k = index_of_char_from(url, '/', 5);
    if !s3_scheme().is_prefix_of(url) || k == 5 {
        None
    } else if k == url.len() {
        Some((url.subrange(5, k), Seq::empty()))
    } else if k + 1 < url.len() && url[k + 1] == '/' {
        None
    } else {
        Some((url.subrange(5, k), url.subrange(k + 1, url.len() as int)))
    }
}

/// Whether a location text can be read: only a text that begins with `s3://`
/// can be malformed.
pub open spec fn location_ok(repo: Seq<char>) -> bool {
    s3_scheme().is_prefix_of(repo) ==> s3_location(repo).is_some()
}

/// The two optional texts are alike.
pub open spec fn same_text(a: Option<&str>, b: Option<String>) -> bool {
    match (a, b) {
        (Some(x), Some(y)) => x@ == y@,
        (None, None) => true,
        _ => false,
    }
}

/// Whether a location names an HTTP or HTTPS base URL.
pub open spec fn is_http_location(repo: Seq<char>) -> bool {
    "http://"@.is_prefix_of(repo) || "https://"@.is_prefix_of(repo)
}

pub(crate) fn owned(text: Option<&str>) -> (r: Option<String>)
    ensures
        same_text(text, r),
{
    match text {
        Some(t) => Some(String::from_str(t)),
        None => None,
    }
}

impl S3Info {
    /// The fields are what the location text says.
    pub open spec fn well_formed(&self) -> bool {
        s3_location(self.url@) == Some((self.bucket@, self.base@))
    }

    /// Reads an S3 location. Fails with `RepoInvalidS3`, naming the text,
    /// exactly where the text is no S3 location.
    pub fn from_s3_url(s3_url: &str, profile: Option<&str>) -> (r: Result<S3Info, Error>)
        ensures
            match r {
                Ok(info) => {
                    &&& s3_location(s3_url@) == Some((info.bucket@, info.base@))
                    &&& info.url@ == s3_url@
                    &&& same_text(profile, info.profile)
                    &&& info.well_formed()
                },
                Err(Error::RepoInvalidS3(text)) => s3_location(s3_url@).is_none() && text@
                    == s3_url@,
                Err(_) => false,
            },
    {
        proof {
            reveal_strlit("s3://");
            assert("s3://"@ =~= s3_scheme());
        }
        if !starts_with(s3_url, "s3://") {
            return Err(Error::RepoInvalidS3(String::from_str(s3_url)));
        }
        let n = s3_url.unicode_len();
        let k = find_char_from(s3_url, '/', 5);
        if k == 5 {
            return Err(Error::RepoInvalidS3(String::from_str(s3_url)));
        }
        let bucket = String::from_str(s3_url.substring_char(5, k));
        let base = if k == n {
            String::new()
        } else {
            if k + 1 < n && s3_url.get_char(k + 1) == '/' {
                return Err(Error::RepoInvalidS3(String::from_str(s3_url)));
            }
            String::from_str(s3_url.substring_char(k + 1, n))
        };
        Ok(S3Info { url: String::from_str(s3_url), bucket, base, profile: owned(profile) })
    }
}

impl RepoInfo {
    /// The location text of the repository.
    pub open spec fn url_spec(&self) -> Seq<char> {
        match self {
            RepoInfo::Local(url) => url@,
            RepoInfo::S3(s3_info) => s3_info.url@,
            RepoInfo::Http(url) => url@,
        }
    }

    /// The location text of the repository.
    pub fn url(&self) -> (r: &str)
        ensures
            r@ == self.url_spec(),
    {
        match self {
            RepoInfo::Local(url) => url.as_str(),
            RepoInfo::S3(s3_info) => s3_info.url.as_str(),
            RepoInfo::Http(url) => url.as_str(),
        }
    }

    /// Whether this is the hosted repository's bucket, at its root, with its
    /// own profile.
    pub open spec fn is_default_publish_repo(&self) -> bool {
        match self {
            RepoInfo::S3(info) => {
                &&& info.url@ == "s3://binst-repo"@
                &&& info.bucket@ == "binst-repo"@
                &&& info.base@.len() == 0
                &&& info.profile matches Some(p) && p@ == "binst-repo-user"@
            },
            _ => false,
        }
    }

    /// Whether this is the hosted repository's base URL, cleaned.
    pub open spec fn is_default_install_repo(&self) -> bool {
        match self {
            RepoInfo::Http(url) => url@ == clean_path_spec("https://repo.binst.io/"@),
            _ => false,
        }
    }

    /// Whether this is what the location text `repo` stands for: `s3://` gives
    /// an S3 location with the bucket and prefix that the text names;
    /// `http://` or `https://` gives an HTTP location; anything else is a local
    /// directory. HTTP and local locations are kept in cleaned form.
    pub open spec fn describes(&self, repo: Seq<char>, profile: Option<&str>) -> bool {
        if s3_scheme().is_prefix_of(repo) {
            match self {
                RepoInfo::S3(info) => {
                    &&& s3_location(repo) == Some((info.bucket@, info.base@))
                    &&& info.url@ == repo
                    &&& same_text(profile, info.profile)
                },
                _ => false,
            }
        } else if is_http_location(repo) {
            match self {
                RepoInfo::Http(url) => url@ == clean_path_spec(repo),
                _ => false,
            }
        } else {
            match self {
                RepoInfo::Local(url) => url@ == clean_path_spec(repo),
                _ => false,
            }
        }
    }

    /// The hosted repository for publishing.
    pub fn binst_publish_repo() -> (r: RepoInfo)
        ensures
            r.is_default_publish_repo(),
            r matches RepoInfo::S3(info) && info.well_formed(),
    {
        proof {
            reveal_strlit("s3://binst-repo");
            reveal_strlit("binst-repo");
            reveal_with_fuel(index_of_char_from, 12);
            let url = "s3://binst-repo"@;
            assert(s3_scheme().is_prefix_of(url));
            assert(index_of_char_from(url, '/', 5) == 15);
            assert(url.subrange(5, 15) =~= "binst-repo"@);
        }
        let s3_info = S3Info {
            url: String::from_str("s3://binst-repo"),
            bucket: String::from_str(BINST_REPO_BUCKET),
            base: String::new(),
            profile: Some(String::from_str(BINST_REPO_AWS_PROFILE)),
        };
        RepoInfo::S3(s3_info)
    }

    /// The hosted repository for installing.
    pub fn binst_install_repo() -> (r: RepoInfo)
        ensures
            r.is_default_install_repo(),
    {
        RepoInfo::Http(clean_path(BINST_REPO_URL))
    }

    /// Classifies a location text. Fails with `RepoInvalidS3`, naming the
    /// text, exactly where the text begins with `s3://` and is no S3 location.
    pub fn from_repo_string(repo: &str, profile: Option<&str>) -> (r: Result<RepoInfo, Error>)
        ensures
            match r {
                Ok(info) => location_ok(repo@) && info.describes(repo@, profile),
                Err(Error::RepoInvalidS3(text)) => !location_ok(repo@) && text@ == repo@,
                Err(_) => false,
            },
    {
        proof {
            reveal_strlit("s3://");
            assert("s3://"@ =~= s3_scheme());
        }
        if starts_with(repo, "s3://") {
            match S3Info::from_s3_url(repo, profile) {
                Ok(info) => Ok(RepoInfo::S3(info)),
                Err(e) => Err(e),
            }
        } else if starts_with(repo, "http://") || starts_with(repo, "https://") {
            Ok(RepoInfo::Http(clean_path(repo)))
        } else {
            Ok(RepoInfo::Local(clean_path(repo)))
        }
    }
}

/// A local or HTTP location is kept in cleaned form: cleaning it again
/// changes nothing.
pub proof fn lemma_location_is_clean(info: RepoInfo, repo: Seq<char>, profile: Option<&str>)
    requires
        info.describes(repo, profile),
        !s3_scheme().is_prefix_of(repo),
    ensures
        clean_path_spec(info.url_spec()) == info.url_spec(),
{
    lemma_clean_path_idempotent(repo);
}

proof fn lemma_scheme_kept(repo: Seq<char>, scheme: Seq<char>)
    requires
        scheme.len() > 0,
        !scheme.contains('/'),
        !scheme.contains(':'),
        (scheme + scheme_sep()).is_prefix_of(repo),
    ensures
        (scheme + scheme_sep()).is_prefix_of(clean_path_spec(repo)),
{
    let sep = scheme_sep();
    let n = scheme.len() as int;
    let head = scheme + sep;
    assert(repo.subrange(0, n + 3) =~= head);
    assert(repo.subrange(n, n + 3) =~= sep) by {
        assert forall|k: int| 0 <= k < 3 implies repo.subrange(n, n + 3)[k] == sep[k] by {
            assert(repo.subrange(0, n + 3)[n + k] == head[n + k]);
        }
    }
    assert forall|j: int| 0 <= j < n implies !occurs_at(repo, sep, j) by {
        if occurs_at(repo, sep, j) {
            assert(repo.subrange(j, j + 3)[0] == sep[0]);
            assert(repo.subrange(0, n + 3)[j] == head[j]);
            assert(scheme.contains(scheme[j]));
        }
    }
    lemma_first_occurrence(repo, sep, n);
    assert(repo.take(n) =~= scheme) by {
        assert forall|k: int| 0 <= k < n implies repo.take(n)[k] == scheme[k] by {
            assert(repo.subrange(0, n + 3)[k] == head[k]);
        }
    }
    lemma_clean_segment_of_plain(scheme);
    let cleaned = clean_path_spec(repo);
    assert(cleaned == scheme + sep + clean_segment(repo.skip(n + 3)));
    assert(cleaned.subrange(0, n + 3) =~= head);
}

/// Cleaning keeps the scheme of an HTTP location: the cleaned text is an
/// HTTP location too.
pub proof fn lemma_http_scheme_kept(repo: Seq<char>)
    requires
        is_http_location(repo),
    ensures
        is_http_location(clean_path_spec(repo)),
{
    reveal_strlit("http://");
    reveal_strlit("https://");
    if "http://"@.is_prefix_of(repo) {
        let scheme = seq!['h', 't', 't', 'p'];
        assert(scheme + scheme_sep() =~= "http://"@);
        lemma_scheme_kept(repo, scheme);
    } else {
        let scheme = seq!['h', 't', 't', 'p', 's'];
        assert(scheme + scheme_sep() =~= "https://"@);
        lemma_scheme_kept(repo, scheme);
    }
}

} // verus!
