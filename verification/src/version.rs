//! Semantic versions as plain values, their text, their precedence and the
//! release stream that a version belongs to.

use vstd::prelude::*;
use crate::text::{lemma_prefix_len, prefix_len};

verus! {

/// A semantic version: three numbers, a pre-release text and a build text,
/// each of the two empty where the version has none.
#[derive(Debug, PartialEq, Eq)]
pub struct Version {
    pub major: u64,
    pub minor: u64,
    pub patch: u64,
    pub pre: String,
    pub build: String,
}

/// The mathematical value of a [`Version`].
pub struct VersionView {
    pub major: u64,
    pub minor: u64,
    pub patch: u64,
    pub pre: Seq<char>,
    pub build: Seq<char>,
}

impl View for Version {
    type V = VersionView;

    open spec fn view(&self) -> VersionView {
        VersionView {
            major: self.major,
            minor: self.minor,
            patch: self.patch,
            pre: self.pre@,
            build: self.build@,
        }
    }
}

/// What `semver::Version::parse` makes of a text: the version's parts, or
/// nothing where the text is no semantic version.
pub uninterp spec fn semver_parse(text: Seq<char>) -> Option<VersionView>;

/// Whether the first pre-release text comes strictly before the second in
/// the order of `semver::Prerelease`; nothing where one of the two texts is
/// not a pre-release text.
pub uninterp spec fn prerelease_precedes(a: Seq<char>, b: Seq<char>) -> Option<bool>;

/// Whether the first build text comes strictly before the second in the order
/// of `semver::BuildMetadata`; nothing where one of the two is no build text.
pub uninterp spec fn build_precedes(a: Seq<char>, b: Seq<char>) -> Option<bool>;

/// Calls `semver::Version::parse` and copies the parsed fields out. The
/// contract only names the outcome: equal texts parse alike.
#[verifier::external_body]
fn semver_parse_text(text: &str) -> (r: Option<Version>)
    ensures
        match r {
            Some(v) => semver_parse(text@) == Some(v@),
            None => semver_parse(text@).is_none(),
        },
{
    match semver::Version::parse(text) {
        Ok(v) => Some(
            Version {
                major: v.major,
                minor: v.minor,
                patch: v.patch,
                pre: v.pre.as_str().to_string(),
                build: v.build.as_str().to_string(),
            },
        ),
        Err(_) => None,
    }
}

/// Builds two `semver::Prerelease` values with `semver::Prerelease::new` and
/// compares them with their `<`. The contract only names the outcome.
#[verifier::external_body]
fn semver_prerelease_lt(a: &str, b: &str) -> (r: Option<bool>)
    ensures
        r == prerelease_precedes(a@, b@),
{
    match (semver::Prerelease::new(a), semver::Prerelease::new(b)) {
        (Ok(x), Ok(y)) => Some(x < y),
        _ => None,
    }
}

/// Builds two `semver::BuildMetadata` values with `semver::BuildMetadata::new`
/// and compares them with their `<`. The contract only names the outcome.
#[verifier::external_body]
fn semver_build_lt(a: &str, b: &str) -> (r: Option<bool>)
    ensures
        r == build_precedes(a@, b@),
{
    match (semver::BuildMetadata::new(a), semver::BuildMetadata::new(b)) {
        (Ok(x), Ok(y)) => Some(x < y),
        _ => None,
    }
}

/// The character of a decimal digit.
pub open spec fn digit_char(d: nat) -> char
    recommends
        d < 10,
{
    ((48 + d) as u8) as char
}

/// The decimal text of a number, without leading zeros.
pub open spec fn decimal(n: nat) -> Seq<char>
    decreases n,
{
    if n < 10 {
        seq![digit_char(n)]
    } else {
        decimal(n / 10).push(digit_char(n % 10))
    }
}

/// The text of a version: `major.minor.patch`, then `-` and the pre-release
/// text where there is one, then `+` and the build text where there is one.
pub open spec fn version_text(v: VersionView) -> Seq<char> {
    decimal(v.major as nat) + seq!['.'] + decimal(v.minor as nat) + seq!['.'] + decimal(
        v.patch as nat,
    ) + (if v.pre.len() > 0 {
        seq!['-'] + v.pre
    } else {
        Seq::empty()
    }) + (if v.build.len() > 0 {
        seq!['+'] + v.build
    } else {
        Seq::empty()
    })
}

/// Precedence, given how the texts compare: `a` is strictly newer than `b`.
/// The numbers decide first, in order. With equal numbers a release is newer
/// than any pre-release of it; two different pre-release texts go by
/// `pre_before`, which says whether the text of `b` comes strictly before that
/// of `a`; and with equal pre-release texts two different build texts go by
/// `build_before` in the same way. Texts that cannot be compared decide
/// nothing: `a` is then not newer.
pub open spec fn version_newer_given(
    a: VersionView,
    b: VersionView,
    pre_before: Option<bool>,
    build_before: Option<bool>,
) -> bool {
    if a.major != b.major {
        a.major > b.major
    } else if a.minor != b.minor {
        a.minor > b.minor
    } else if a.patch != b.patch {
        a.patch > b.patch
    } else if a.pre != b.pre {
        if a.pre.len() == 0 {
            true
        } else if b.pre.len() == 0 {
            false
        } else {
            pre_before == Some(true)
        }
    } else {
        a.build != b.build && build_before == Some(true)
    }
}

/// Precedence: `a` is strictly newer than `b`, with the pre-release texts and
/// the build texts compared as `semver` compares them.
pub open spec fn version_newer(a: VersionView, b: VersionView) -> bool {
    version_newer_given(
        a,
        b,
        prerelease_precedes(b.pre, a.pre),
        build_precedes(b.build, a.build),
    )
}

/// No version is newer than itself.
pub proof fn lemma_not_newer_than_itself(v: VersionView)
    ensures
        !version_newer(v, v),
{
}

fn digit(d: u64) -> (c: char)
    requires
        d < 10,
    ensures
        c == digit_char(d as nat),
{
    let b: u8 = 48 + (d as u8);
    b as char
}

pub(crate) fn push_decimal(out: &mut String, n: u64)
    ensures
        final(out)@ == old(out)@ + decimal(n as nat),
    decreases n,
{
    if n >= 10 {
        push_decimal(out, n / 10);
    }
    out.push(digit(n % 10));
    proof {
        assert(final(out)@ =~= old(out)@ + decimal(n as nat));
    }
}

impl Version {
    /// Reads a semantic version from its text.
    pub fn parse(text: &str) -> (r: Option<Version>)
        ensures
            match r {
                Some(v) => semver_parse(text@) == Some(v@),
                None => semver_parse(text@).is_none(),
            },
    {
        semver_parse_text(text)
    }

    /// The text of the version.
    pub fn to_text(&self) -> (r: String)
        ensures
            r@ == version_text(self@),
    {
        let mut out = String::new();
        push_decimal(&mut out, self.major);
        out.push('.');
        push_decimal(&mut out, self.minor);
        out.push('.');
        push_decimal(&mut out, self.patch);
        let ghost numbers = out@;
        if !self.pre.as_str().is_empty() {
            out.push('-');
            out.append(self.pre.as_str());
        }
        let ghost with_pre = out@;
        if !self.build.as_str().is_empty() {
            out.push('+');
            out.append(self.build.as_str());
        }
        proof {
            let v = self@;
            assert(numbers =~= decimal(v.major as nat) + seq!['.'] + decimal(v.minor as nat)
                + seq!['.'] + decimal(v.patch as nat));
            assert(with_pre =~= numbers + (if v.pre.len() > 0 {
                seq!['-'] + v.pre
            } else {
                Seq::empty()
            }));
            assert(out@ =~= with_pre + (if v.build.len() > 0 {
                seq!['+'] + v.build
            } else {
                Seq::empty()
            }));
        }
        out
    }

    /// Whether this version is strictly newer than `other`, given how their
    /// pre-release texts and their build texts compare.
    pub fn newer_with(
        &self,
        other: &Version,
        pre_before: Option<bool>,
        build_before: Option<bool>,
    ) -> (r: bool)
        ensures
            r == version_newer_given(self@, other@, pre_before, build_before),
    {
        if self.major != other.major {
            self.major > other.major
        } else if self.minor != other.minor {
            self.minor > other.minor
        } else if self.patch != other.patch {
            self.patch > other.patch
        } else if self.pre != other.pre {
            if self.pre.as_str().is_empty() {
                true
            } else if other.pre.as_str().is_empty() {
                false
            } else {
                match pre_before {
                    Some(b) => b,
                    None => false,
                }
            }
        } else if self.build != other.build {
            match build_before {
                Some(b) => b,
                None => false,
            }
        } else {
            false
        }
    }

    /// Whether this version is strictly newer than `other`.
    pub fn newer_than(&self, other: &Version) -> (r: bool)
        ensures
            r == version_newer(self@, other@),
    {
        let pre_before = semver_prerelease_lt(other.pre.as_str(), self.pre.as_str());
        let build_before = semver_build_lt(other.build.as_str(), self.build.as_str());
        self.newer_with(other, pre_before, build_before)
    }
}

/// The stream of versions without a pre-release text.
pub const MAIN_STREAM: &'static str = "main";

/// A character that a stream name is made of: an ASCII letter or a hyphen.
pub open spec fn is_stream_char(c: char) -> bool {
    ('a' <= c && c <= 'z') || ('A' <= c && c <= 'Z') || c == '-'
}

/// Number of leading characters of `s` that are letters or hyphens.
pub open spec fn stream_run_len(s: Seq<char>) -> nat {
    prefix_len(s, |c: char| is_stream_char(c))
}

/// `s` without one trailing hyphen.
pub open spec fn strip_trailing_hyphen(s: Seq<char>) -> Seq<char> {
    if s.len() > 0 && s.last() == '-' {
        s.drop_last()
    } else {
        s
    }
}

/// The stream of a pre-release text: `main` for the empty text; else the
/// leading letters and hyphens without one trailing hyphen, or `pre` where the
/// text begins with neither.
pub open spec fn stream_of(pre: Seq<char>) -> Seq<char> {
    if pre.len() == 0 {
        "main"@
    } else if stream_run_len(pre) == 0 {
        "pre"@
    } else {
        strip_trailing_hyphen(pre.take(stream_run_len(pre) as int))
    }
}

fn stream_char(c: char) -> (r: bool)
    ensures
        r == is_stream_char(c),
{
    (c >= 'a' && c <= 'z') || (c >= 'A' && c <= 'Z') || c == '-'
}

/// The release stream of a version: `main` for a version without a
/// pre-release text, else what the pre-release text begins with.
pub fn extract_stream(version: &Version) -> (r: String)
    ensures
        r@ == stream_of(version@.pre),
        version@.pre.len() == 0 ==> r@ == "main"@,
{
    let pre = version.pre.as_str();
    let n = pre.unicode_len();
    if n == 0 {
        return String::from_str(MAIN_STREAM);
    }
    let mut m: usize = 0;
    while m < n && stream_char(pre.get_char(m))
        invariant
            n == pre@.len(),
            m <= n,
            forall|k: int| 0 <= k < m ==> is_stream_char(pre@[k]),
        decreases n - m,
    {
        m += 1;
    }
    proof {
        lemma_prefix_len(pre@, |c: char| is_stream_char(c), m as int);
    }
    if m == 0 {
        return String::from_str("pre");
    }
    let end = if pre.get_char(m - 1) == '-' {
        m - 1
    } else {
        m
    };
    let run = pre.substring_char(0, end);
    proof {
        let taken = pre@.take(m as int);
        assert(taken.last() == pre@[m - 1]);
        assert(run@ =~= strip_trailing_hyphen(taken));
    }
    String::from_str(run)
}

/// The directory name of a version in a repository and in the package cache:
/// `v` and the version's text.
pub open spec fn version_part(v: VersionView) -> Seq<char> {
    seq!['v'] + version_text(v)
}

/// Returns the path part of a version.
pub fn get_version_part(version: &Version) -> (r: String)
    ensures
        r@ == version_part(version@),
{
    let mut out = String::new();
    out.push('v');
    let text = version.to_text();
    out.append(text.as_str());
    proof {
        assert(out@ =~= version_part(version@));
    }
    out
}

} // verus!
