//! Path cleaning and the guard that stands before a recursive deletion.

use vstd::prelude::*;
use crate::text::{
    contains, find, find_char_from, first_occurrence, join, join_with, lemma_first_occurrence,
    lemma_no_occurrence, lemma_prefix_len, lemma_prefix_len_bounds, occurs_at, occurs_in,
    prefix_len, views_of,
};

verus! {

/// Failures of the helpers in this module and of the document lookups.
#[derive(Debug)]
pub enum UtilsError {
    /// A command could not be run or ended badly: the command line, the cause.
    ExecError(String, String),
    /// A document holds no string under the dotted key.
    TomlValueNotFound(String),
    /// The directory lacks the marker that makes it safe to delete.
    DirNotSafeToDelete(String),
}

/// The command line of a command and its arguments, as messages show it.
pub open spec fn command_line(cmd: Seq<char>, args: Seq<&str>) -> Seq<char> {
    cmd + " "@ + join_with(views_of(args), " "@)
}

impl UtilsError {
    /// The failure of a command that could not be run: the command line and
    /// the text of the cause.
    pub fn from_exec_stderr(cmd: &str, args: &[&str], cause: &str) -> (r: UtilsError)
        ensures
            r matches UtilsError::ExecError(line, why) && line@ == command_line(cmd@, args@)
                && why@ == cause@,
    {
        let mut command = String::from_str(cmd);
        command.append(" ");
        let joined = join(args, " ");
        command.append(joined.as_str());
        UtilsError::ExecError(command, String::from_str(cause))
    }

    /// The failure of a command that ended badly: the command line and the
    /// text of its exit status.
    pub fn from_exec_status(cmd: &str, args: &[&str], status: &str) -> (r: UtilsError)
        ensures
            r matches UtilsError::ExecError(line, why) && line@ == command_line(cmd@, args@)
                && why@ == status@,
    {
        UtilsError::from_exec_stderr(cmd, args, status)
    }
}

/// Number of leading characters of `s` before its first `/`.
pub open spec fn run_len(s: Seq<char>) -> nat {
    prefix_len(s, |c: char| c != '/')
}

/// The non-empty pieces of `s` between its `/` characters, in order.
pub open spec fn segments(s: Seq<char>) -> Seq<Seq<char>>
    decreases s.len(),
    via segments_terminates
{
    if s.len() == 0 {
        Seq::empty()
    } else if s[0] == '/' {
        segments(s.drop_first())
    } else {
        let n = run_len(s) as int;
        seq![s.take(n)] + segments(s.skip(n))
    }
}

#[via_fn]
proof fn segments_terminates(s: Seq<char>) {
    lemma_run_len_bounds(s);
}

/// The pieces written one after another with a single `/` between neighbours.
pub open spec fn join_segments(parts: Seq<Seq<char>>) -> Seq<char> {
    join_with(parts, seq!['/'])
}

/// `s` without leading, trailing and repeated `/`.
pub open spec fn clean_segment(s: Seq<char>) -> Seq<char> {
    join_segments(segments(s))
}

/// The delimiter between a scheme and what follows it.
pub open spec fn scheme_sep() -> Seq<char> {
    seq![':', '/', '/']
}

/// The cleaned form of a path or URL: each side of the first `://` is cleaned
/// on its own and the delimiter is kept; without one the whole text is cleaned.
pub open spec fn clean_path_spec(s: Seq<char>) -> Seq<char> {
    match first_occurrence(s, scheme_sep()) {
        Some(i) => clean_segment(s.take(i)) + scheme_sep() + clean_segment(s.skip(i + 3)),
        None => clean_segment(s),
    }
}

/// `a` and `b` with a `/` between them unless one of them is empty.
pub open spec fn glue(a: Seq<char>, b: Seq<char>) -> Seq<char> {
    if a.len() == 0 {
        b
    } else if b.len() == 0 {
        a
    } else {
        a + seq!['/'] + b
    }
}

/// Every piece is non-empty and holds no `/`.
pub open spec fn clean_parts(parts: Seq<Seq<char>>) -> bool {
    forall|k: int|
        0 <= k < parts.len() ==> (#[trigger] parts[k]).len() > 0 && !parts[k].contains('/')
}

/// Two `/` stand side by side at position `k` of `t`.
pub open spec fn double_slash_at(t: Seq<char>, k: int) -> bool {
    0 <= k && k + 1 < t.len() && t[k] == '/' && t[k + 1] == '/'
}

/// `t` neither begins nor ends with `/` and holds no two `/` side by side.
pub open spec fn tidy(t: Seq<char>) -> bool {
    &&& t.len() > 0 ==> t[0] != '/' && t.last() != '/'
    &&& forall|k: int| !double_slash_at(t, k)
}

proof fn lemma_run_len(t: Seq<char>, m: int)
    requires
        0 <= m <= t.len(),
        forall|k: int| 0 <= k < m ==> t[k] != '/',
        m == t.len() || t[m] == '/',
    ensures
        run_len(t) == m,
{
    lemma_prefix_len(t, |c: char| c != '/', m);
}

proof fn lemma_run_len_bounds(t: Seq<char>)
    ensures
        run_len(t) <= t.len(),
        t.len() > 0 && t[0] != '/' ==> run_len(t) > 0,
        forall|k: int| 0 <= k < run_len(t) ==> t[k] != '/',
        run_len(t) < t.len() ==> t[run_len(t) as int] == '/',
{
    lemma_prefix_len_bounds(t, |c: char| c != '/');
}

proof fn lemma_segments_clean(s: Seq<char>)
    ensures
        clean_parts(segments(s)),
    decreases s.len(),
{
    if s.len() == 0 {
    } else if s[0] == '/' {
        lemma_segments_clean(s.drop_first());
    } else {
        let n = run_len(s) as int;
        lemma_run_len_bounds(s);
        lemma_segments_clean(s.skip(n));
        let head = s.take(n);
        let rest = segments(s.skip(n));
        assert(!head.contains('/'));
        assert forall|k: int| 0 <= k < segments(s).len() implies (#[trigger] segments(s)[k]).len()
            > 0 && !segments(s)[k].contains('/') by {
            if k > 0 {
                assert(segments(s)[k] == rest[k - 1]);
            }
        }
    }
}

proof fn lemma_join_nonempty(parts: Seq<Seq<char>>)
    requires
        clean_parts(parts),
        parts.len() > 0,
    ensures
        join_segments(parts).len() > 0,
{
    assert(parts[0].len() > 0);
}

proof fn lemma_join_cons(x: Seq<char>, rest: Seq<Seq<char>>)
    requires
        x.len() > 0,
        clean_parts(rest),
    ensures
        join_segments(seq![x] + rest) == glue(x, join_segments(rest)),
{
    let all = seq![x] + rest;
    if rest.len() == 0 {
        assert(all.len() == 1);
        assert(all[0] == x);
    } else {
        assert(all.drop_first() =~= rest);
        assert(all[0] == x);
        lemma_join_nonempty(rest);
    }
}

proof fn lemma_glue_assoc(a: Seq<char>, x: Seq<char>, b: Seq<char>)
    requires
        x.len() > 0,
    ensures
        glue(glue(a, x), b) =~= glue(a, glue(x, b)),
{
}

proof fn lemma_segments_of_join(parts: Seq<Seq<char>>)
    requires
        clean_parts(parts),
    ensures
        segments(join_segments(parts)) == parts,
    decreases parts.len(),
{
    if parts.len() == 0 {
        assert(parts =~= Seq::<Seq<char>>::empty());
    } else {
        let x = parts[0];
        let rest = parts.drop_first();
        assert(x.len() > 0 && !x.contains('/'));
        assert forall|k: int| 0 <= k < rest.len() implies (#[trigger] rest[k]).len() > 0
            && !rest[k].contains('/') by {
            assert(rest[k] == parts[k + 1]);
        }
        let s = join_segments(parts);
        let n = x.len() as int;
        assert forall|k: int| 0 <= k < n implies s[k] != '/' by {
            assert(s[k] == x[k]);
            assert(x.contains(x[k]));
        }
        assert(s[0] == x[0]);
        lemma_run_len(s, n);
        assert(s.take(n) =~= x);
        assert(segments(s) == seq![s.take(n)] + segments(s.skip(n)));
        if parts.len() == 1 {
            assert(s.skip(n) =~= Seq::<char>::empty());
            assert(segments(s.skip(n)) == Seq::<Seq<char>>::empty());
            assert(seq![x] + Seq::<Seq<char>>::empty() =~= parts);
        } else {
            let t = s.skip(n);
            assert(t[0] == '/');
            assert(t.drop_first() =~= join_segments(rest));
            assert(segments(t) == segments(t.drop_first()));
            lemma_segments_of_join(rest);
            assert(seq![x] + rest =~= parts);
        }
    }
}

proof fn lemma_join_tidy(parts: Seq<Seq<char>>)
    requires
        clean_parts(parts),
    ensures
        tidy(join_segments(parts)),
    decreases parts.len(),
{
    if parts.len() == 0 {
    } else {
        let x = parts[0];
        let s = join_segments(parts);
        assert(x.len() > 0 && !x.contains('/'));
        assert forall|k: int| 0 <= k < x.len() implies x[k] != '/' by {
            assert(x.contains(x[k]));
        }
        if parts.len() == 1 {
        } else {
            let rest = parts.drop_first();
            assert forall|k: int| 0 <= k < rest.len() implies (#[trigger] rest[k]).len() > 0
                && !rest[k].contains('/') by {
                assert(rest[k] == parts[k + 1]);
            }
            lemma_join_tidy(rest);
            lemma_join_nonempty(rest);
            let j = join_segments(rest);
            let n = x.len() as int;
            assert forall|k: int| !double_slash_at(s, k) by {
                if double_slash_at(s, k) {
                    if k + 1 < n {
                        assert(s[k] == x[k]);
                    } else if k + 1 == n {
                        assert(s[k] == x[k]);
                    } else if k == n {
                        assert(s[k + 1] == j[0]);
                    } else {
                        assert(s[k] == j[k - n - 1]);
                        assert(s[k + 1] == j[k - n]);
                        assert(double_slash_at(j, k - n - 1));
                    }
                }
            }
            assert(s.last() == j.last());
            assert(s[0] == x[0]);
        }
    }
}

/// A cleaned piece of text holds no scheme delimiter.
proof fn lemma_tidy_has_no_sep(t: Seq<char>)
    requires
        tidy(t),
    ensures
        !occurs_in(t, scheme_sep()),
{
    assert forall|i: int| !occurs_at(t, scheme_sep(), i) by {
        if occurs_at(t, scheme_sep(), i) {
            let sub = t.subrange(i, i + 3);
            assert(sub[1] == '/' && sub[2] == '/');
            assert(double_slash_at(t, i + 1));
        }
    }
}

/// A non-empty text without `/` is clean as it stands.
pub proof fn lemma_clean_segment_of_plain(t: Seq<char>)
    requires
        t.len() > 0,
        !t.contains('/'),
    ensures
        clean_segment(t) == t,
{
    let parts = seq![t];
    assert(join_segments(parts) == t);
    lemma_segments_of_join(parts);
}

/// Cleaning one side of a path twice changes nothing more.
pub proof fn lemma_clean_segment_idempotent(s: Seq<char>)
    ensures
        clean_segment(clean_segment(s)) == clean_segment(s),
        tidy(clean_segment(s)),
{
    lemma_segments_clean(s);
    lemma_segments_of_join(segments(s));
    lemma_join_tidy(segments(s));
}

proof fn lemma_no_sep_across(left: Seq<char>, right: Seq<char>)
    requires
        tidy(left),
    ensures
        first_occurrence(left + scheme_sep() + right, scheme_sep()) == Some(left.len() as int),
{
    let sep = scheme_sep();
    let out = left + sep + right;
    let n = left.len() as int;
    assert(out.subrange(n, n + 3) =~= sep);
    assert forall|j: int| 0 <= j < n implies !occurs_at(out, sep, j) by {
        if occurs_at(out, sep, j) {
            let sub = out.subrange(j, j + 3);
            assert(sub[1] == '/' && sub[2] == '/');
            assert(out[j + 1] == '/' && out[j + 2] == '/');
            if j + 2 < n {
                assert(out[j + 1] == left[j + 1] && out[j + 2] == left[j + 2]);
                assert(double_slash_at(left, j + 1));
            } else if j + 2 == n {
                assert(out[j + 1] == left[j + 1]);
                assert(left.last() == '/');
            } else {
                assert(out[j + 1] == sep[0]);
            }
        }
    }
    lemma_first_occurrence(out, sep, n);
}

/// Cleaning is idempotent: a cleaned path is its own cleaned form.
pub proof fn lemma_clean_path_idempotent(s: Seq<char>)
    ensures
        clean_path_spec(clean_path_spec(s)) == clean_path_spec(s),
{
    let sep = scheme_sep();
    match first_occurrence(s, sep) {
        None => {
            lemma_clean_segment_idempotent(s);
            lemma_tidy_has_no_sep(clean_segment(s));
            lemma_no_occurrence(clean_segment(s), sep);
        },
        Some(i) => {
            let left = clean_segment(s.take(i));
            let right = clean_segment(s.skip(i + 3));
            let out = left + sep + right;
            let n = left.len() as int;
            lemma_clean_segment_idempotent(s.take(i));
            lemma_clean_segment_idempotent(s.skip(i + 3));
            lemma_no_sep_across(left, right);
            assert(out.take(n) =~= left);
            assert(out.skip(n + 3) =~= right);
        },
    }
}

/// Cleans one side of a path: drops empty pieces between `/` characters.
fn clean_segment_of(s: &str) -> (r: String)
    ensures
        r@ == clean_segment(s@),
{
    let n = s.unicode_len();
    let mut out = String::new();
    let mut i: usize = 0;
    proof {
        assert(s@.skip(0) =~= s@);
    }
    while i < n
        invariant
            n == s@.len(),
            i <= n,
            clean_segment(s@) == glue(out@, clean_segment(s@.skip(i as int))),
        decreases n - i,
    {
        let ghost rem = s@.skip(i as int);
        let ghost before = out@;
        if s.get_char(i) == '/' {
            proof {
                assert(rem[0] == '/');
                assert(rem.drop_first() =~= s@.skip(i + 1));
                assert(segments(rem) == segments(rem.drop_first()));
            }
            i += 1;
        } else {
            let j = find_char_from(s, '/', i);
            let seg = s.substring_char(i, j);
            proof {
                assert forall|k: int| 0 <= k < j - i implies rem[k] != '/' by {
                    assert(rem[k] == s@[i + k]);
                }
                assert(rem[0] == s@[i as int]);
                lemma_run_len(rem, j - i);
                assert(rem.take(j - i) =~= seg@);
                assert(rem.skip(j - i) =~= s@.skip(j as int));
                assert(segments(rem) == seq![rem.take(j - i)] + segments(rem.skip(j - i)));
                lemma_segments_clean(s@.skip(j as int));
                lemma_join_cons(seg@, segments(s@.skip(j as int)));
                lemma_glue_assoc(before, seg@, clean_segment(s@.skip(j as int)));
            }
            if !out.as_str().is_empty() {
                out.push('/');
            }
            out.append(seg);
            proof {
                assert(out@ =~= glue(before, seg@));
            }
            i = j;
        }
    }
    proof {
        assert(s@.skip(n as int) =~= Seq::<char>::empty());
    }
    out
}

/// Removes redundant `/` as well as leading and trailing `/`, on each side of
/// the first `://`, which is kept as it is.
pub fn clean_path(uri: &str) -> (r: String)
    ensures
        r@ == clean_path_spec(uri@),
{
    proof {
        reveal_strlit("://");
        assert("://"@ =~= scheme_sep());
    }
    match find(uri, "://") {
        Some(i) => {
            proof {
                assert(i + 3 <= uri@.len());
            }
            let n = uri.unicode_len();
            let mut out = clean_segment_of(uri.substring_char(0, i));
            out.append("://");
            let right = clean_segment_of(uri.substring_char(i + 3, n));
            out.append(right.as_str());
            proof {
                assert(uri@.take(i as int) =~= uri@.subrange(0, i as int));
                assert(uri@.skip(i + 3) =~= uri@.subrange(i + 3, n as int));
            }
            out
        },
        None => clean_segment_of(uri),
    }
}

/// The marker that a path must hold before it may be deleted recursively.
pub open spec fn deletion_marker() -> Seq<char> {
    seq!['b', 'i', 'n', 's', 't']
}

/// Whether a directory with this path may be deleted recursively.
pub open spec fn safe_to_delete(path: Seq<char>) -> bool {
    occurs_in(path, deletion_marker())
}

/// Guards a recursive deletion: refuses every path that does not hold the
/// marker, whatever stands at that path.
pub fn check_safe_to_delete(path: &str) -> (r: Result<(), UtilsError>)
    ensures
        r.is_ok() == safe_to_delete(path@),
        match r {
            Ok(_) => true,
            Err(UtilsError::DirNotSafeToDelete(p)) => p@ == path@,
            Err(_) => false,
        },
{
    proof {
        reveal_strlit("binst");
        assert("binst"@ =~= deletion_marker());
    }
    if contains(path, "binst") {
        Ok(())
    } else {
        Err(UtilsError::DirNotSafeToDelete(String::from_str(path)))
    }
}

} // verus!
