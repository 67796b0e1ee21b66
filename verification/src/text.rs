//! Small string operations on `&str`, stated over sequences of characters.

use vstd::prelude::*;

verus! {

/// `String::push` of std appends one character to the string.
pub assume_specification[ String::push ](s: &mut String, c: char)
    ensures
        final(s)@ == old(s)@.push(c),
;

/// `pat` occurs in `s` at character position `i`.
pub open spec fn occurs_at(s: Seq<char>, pat: Seq<char>, i: int) -> bool {
    0 <= i && i + pat.len() <= s.len() && s.subrange(i, i + pat.len()) == pat
}

/// `pat` occurs somewhere in `s`.
pub open spec fn occurs_in(s: Seq<char>, pat: Seq<char>) -> bool {
    exists|i: int| occurs_at(s, pat, i)
}

/// Whether `pat` occurs in `s` at character position `at`.
pub fn matches_at(s: &str, pat: &str, at: usize) -> (r: bool)
    ensures
        r == occurs_at(s@, pat@, at as int),
{
    let n = s.unicode_len();
    let m = pat.unicode_len();
    if at > n || m > n - at {
        return false;
    }
    let mut k: usize = 0;
    while k < m
        invariant
            n == s@.len(),
            m == pat@.len(),
            at + m <= n,
            k <= m,
            forall|j: int| 0 <= j < k ==> s@[at + j] == pat@[j],
        decreases m - k,
    {
        if s.get_char(at + k) != pat.get_char(k) {
            proof {
                assert(s@.subrange(at as int, at + m)[k as int] == s@[at + k]);
            }
            return false;
        }
        k += 1;
    }
    proof {
        assert(s@.subrange(at as int, at + m) =~= pat@);
    }
    true
}

/// Whether `s` begins with `prefix`.
pub fn starts_with(s: &str, prefix: &str) -> (r: bool)
    ensures
        r == prefix@.is_prefix_of(s@),
{
    matches_at(s, prefix, 0)
}

/// Position of the first occurrence of `pat` in `s`, if there is one.
pub closed spec fn first_occurrence(s: Seq<char>, pat: Seq<char>) -> Option<int> {
    if occurs_in(s, pat) {
        Some(
            choose|i: int|
                occurs_at(s, pat, i) && forall|j: int| 0 <= j < i ==> !occurs_at(s, pat, j),
        )
    } else {
        None
    }
}

/// An occurrence with none before it is the first occurrence.
pub proof fn lemma_first_occurrence(s: Seq<char>, pat: Seq<char>, i: int)
    requires
        occurs_at(s, pat, i),
        forall|j: int| 0 <= j < i ==> !occurs_at(s, pat, j),
    ensures
        first_occurrence(s, pat) == Some(i),
{
    let c = choose|c: int|
        occurs_at(s, pat, c) && forall|j: int| 0 <= j < c ==> !occurs_at(s, pat, j);
    assert(c == i) by {
        if c < i {
            assert(!occurs_at(s, pat, c));
        }
        if i < c {
            assert(!occurs_at(s, pat, i));
        }
    }
}

/// Without an occurrence there is no first one.
pub proof fn lemma_no_occurrence(s: Seq<char>, pat: Seq<char>)
    requires
        !occurs_in(s, pat),
    ensures
        first_occurrence(s, pat).is_none(),
{
}

/// The first occurrence is an occurrence, and none stands before it.
pub proof fn lemma_first_occurrence_is_first(s: Seq<char>, pat: Seq<char>)
    ensures
        match first_occurrence(s, pat) {
            Some(i) => occurs_at(s, pat, i) && forall|j: int|
                0 <= j < i ==> !occurs_at(s, pat, j),
            None => !occurs_in(s, pat),
        },
{
    if occurs_in(s, pat) {
        let w = choose|w: int| occurs_at(s, pat, w);
        lemma_least_occurrence(s, pat, w);
    }
}

proof fn lemma_least_occurrence(s: Seq<char>, pat: Seq<char>, w: int)
    requires
        occurs_at(s, pat, w),
    ensures
        exists|i: int|
            occurs_at(s, pat, i) && forall|j: int| 0 <= j < i ==> !occurs_at(s, pat, j),
    decreases w,
{
    if exists|j: int| 0 <= j < w && occurs_at(s, pat, j) {
        let j = choose|j: int| 0 <= j < w && occurs_at(s, pat, j);
        lemma_least_occurrence(s, pat, j);
    } else {
        assert(occurs_at(s, pat, w) && forall|j: int| 0 <= j < w ==> !occurs_at(s, pat, j));
    }
}

/// Finds the first occurrence of `pat` in `s`.
pub fn find(s: &str, pat: &str) -> (r: Option<usize>)
    ensures
        r.is_some() == occurs_in(s@, pat@),
        match r {
            Some(i) => first_occurrence(s@, pat@) == Some(i as int) && occurs_at(s@, pat@, i as int),
            None => first_occurrence(s@, pat@).is_none(),
        },
{
    let n = s.unicode_len();
    let mut i: usize = 0;
    while i <= n
        invariant
            n == s@.len(),
            i <= n + 1,
            forall|j: int| 0 <= j < i ==> !occurs_at(s@, pat@, j),
        decreases n + 1 - i,
    {
        if matches_at(s, pat, i) {
            proof {
                lemma_first_occurrence(s@, pat@, i as int);
            }
            return Some(i);
        }
        if i == n {
            proof {
                assert forall|j: int| !occurs_at(s@, pat@, j) by {
                    if occurs_at(s@, pat@, j) {
                        assert(j <= n);
                    }
                }
                lemma_no_occurrence(s@, pat@);
            }
            return None;
        }
        i += 1;
    }
    None
}

/// Whether `pat` occurs in `s`.
pub fn contains(s: &str, pat: &str) -> (r: bool)
    ensures
        r == occurs_in(s@, pat@),
{
    find(s, pat).is_some()
}

/// Number of leading characters of `s` that satisfy `keep`.
pub open spec fn prefix_len(s: Seq<char>, keep: spec_fn(char) -> bool) -> nat
    decreases s.len(),
{
    if s.len() == 0 || !keep(s[0]) {
        0
    } else {
        1 + prefix_len(s.drop_first(), keep)
    }
}

/// The leading run of `t` ends at `m` where every character before `m`
/// satisfies `keep` and the one at `m`, if there is one, does not.
pub proof fn lemma_prefix_len(t: Seq<char>, keep: spec_fn(char) -> bool, m: int)
    requires
        0 <= m <= t.len(),
        forall|k: int| 0 <= k < m ==> keep(#[trigger] t[k]),
        m == t.len() || !keep(t[m]),
    ensures
        prefix_len(t, keep) == m,
    decreases m,
{
    if m > 0 {
        let d = t.drop_first();
        assert forall|k: int| 0 <= k < m - 1 implies keep(#[trigger] d[k]) by {
            assert(d[k] == t[k + 1]);
        }
        lemma_prefix_len(d, keep, m - 1);
    }
}

/// The leading run lies within the text, holds only characters that satisfy
/// `keep`, and ends before one that does not.
pub proof fn lemma_prefix_len_bounds(t: Seq<char>, keep: spec_fn(char) -> bool)
    ensures
        prefix_len(t, keep) <= t.len(),
        forall|k: int| 0 <= k < prefix_len(t, keep) ==> keep(#[trigger] t[k]),
        prefix_len(t, keep) < t.len() ==> !keep(t[prefix_len(t, keep) as int]),
    decreases t.len(),
{
    if t.len() == 0 || !keep(t[0]) {
    } else {
        let d = t.drop_first();
        lemma_prefix_len_bounds(d, keep);
        assert forall|k: int| 0 <= k < prefix_len(t, keep) implies keep(#[trigger] t[k]) by {
            if k > 0 {
                assert(t[k] == d[k - 1]);
            }
        }
    }
}

/// Position of the first `c` in `s` at or after `from`, or the length of `s`
/// where there is none.
pub open spec fn index_of_char_from(s: Seq<char>, c: char, from: int) -> int
    decreases s.len() - from,
{
    if from < 0 || from >= s.len() {
        s.len() as int
    } else if s[from] == c {
        from
    } else {
        index_of_char_from(s, c, from + 1)
    }
}

/// Finds the first `c` in `s` at or after `from`.
pub fn find_char_from(s: &str, c: char, from: usize) -> (r: usize)
    requires
        from <= s@.len(),
    ensures
        r == index_of_char_from(s@, c, from as int),
        from <= r <= s@.len(),
        forall|j: int| from <= j < r ==> s@[j] != c,
        r < s@.len() ==> s@[r as int] == c,
{
    let n = s.unicode_len();
    let mut i: usize = from;
    while i < n
        invariant
            n == s@.len(),
            from <= i <= n,
            forall|j: int| from <= j < i ==> s@[j] != c,
            index_of_char_from(s@, c, from as int) == index_of_char_from(s@, c, i as int),
        decreases n - i,
    {
        if s.get_char(i) == c {
            return i;
        }
        i += 1;
    }
    i
}


/// The pieces written one after another with `sep` between neighbours.
pub open spec fn join_with(parts: Seq<Seq<char>>, sep: Seq<char>) -> Seq<char>
    decreases parts.len(),
{
    if parts.len() == 0 {
        Seq::empty()
    } else if parts.len() == 1 {
        parts[0]
    } else {
        parts[0] + sep + join_with(parts.drop_first(), sep)
    }
}

/// One more piece at the end is written behind one more separator.
pub proof fn lemma_join_with_push(parts: Seq<Seq<char>>, last: Seq<char>, sep: Seq<char>)
    requires
        parts.len() > 0,
    ensures
        join_with(parts.push(last), sep) == join_with(parts, sep) + sep + last,
    decreases parts.len(),
{
    let all = parts.push(last);
    assert(all[0] == parts[0]);
    if parts.len() == 1 {
        assert(all.drop_first() =~= seq![last]);
        assert(join_with(seq![last], sep) == last);
    } else {
        let rest = parts.drop_first();
        assert(all.drop_first() =~= rest.push(last));
        lemma_join_with_push(rest, last, sep);
        assert(join_with(all, sep) =~= join_with(parts, sep) + sep + last);
    }
}

/// The character sequences of a list of strings.
pub open spec fn views_of(parts: Seq<&str>) -> Seq<Seq<char>> {
    parts.map_values(|s: &str| s@)
}

/// Joins the strings with `sep` between neighbours.
pub fn join(parts: &[&str], sep: &str) -> (r: String)
    ensures
        r@ == join_with(views_of(parts@), sep@),
{
    let mut out = String::new();
    let ghost all = views_of(parts@);
    let mut i: usize = 0;
    while i < parts.len()
        invariant
            i <= parts@.len(),
            all == views_of(parts@),
            out@ == join_with(all.take(i as int), sep@),
        decreases parts@.len() - i,
    {
        let ghost before = all.take(i as int);
        proof {
            assert(all.take(i + 1) =~= before.push(parts@[i as int]@));
            if i > 0 {
                lemma_join_with_push(before, parts@[i as int]@, sep@);
            }
        }
        if i > 0 {
            out.append(sep);
        }
        out.append(parts[i]);
        i += 1;
    }
    proof {
        assert(all.take(i as int) =~= all);
    }
    out
}

/// `a`, a `/`, and `b`.
pub open spec fn slashed(a: Seq<char>, b: Seq<char>) -> Seq<char> {
    a + seq!['/'] + b
}

/// Writes `a`, a `/`, and `b`.
pub fn slash_join(a: &str, b: &str) -> (r: String)
    ensures
        r@ == slashed(a@, b@),
{
    let mut out = String::from_str(a);
    out.push('/');
    out.append(b);
    proof {
        assert(out@ =~= slashed(a@, b@));
    }
    out
}

/// Writes `a` and then `b`.
pub fn concat(a: &str, b: &str) -> (r: String)
    ensures
        r@ == a@ + b@,
{
    let mut out = String::from_str(a);
    out.append(b);
    out
}

/// A path with one more component, as `Path::join` gives it on a system whose
/// separator is `/`: a component that begins with `/` stands alone, and a
/// separator is put in unless the path is empty or ends with one.
pub open spec fn path_join(a: Seq<char>, b: Seq<char>) -> Seq<char> {
    if b.len() > 0 && b[0] == '/' {
        b
    } else if a.len() == 0 || a.last() == '/' {
        a + b
    } else {
        a + seq!['/'] + b
    }
}

/// Appends a component to a path.
pub fn join_path(a: &str, b: &str) -> (r: String)
    ensures
        r@ == path_join(a@, b@),
{
    let n = a.unicode_len();
    if b.unicode_len() > 0 && b.get_char(0) == '/' {
        String::from_str(b)
    } else if n == 0 || a.get_char(n - 1) == '/' {
        concat(a, b)
    } else {
        slash_join(a, b)
    }
}

} // verus!
