//! The path resolver: pure functions that map a raw request path to the
//! relative on-disk path it names. Leading '/' characters are stripped, a
//! trailing '/' is normalized away, and a path whose trimmed form contains no
//! '.' is sent to its "/index.html" document. Paths holding a ".." segment
//! are recognized so that the server can reject them instead of letting a
//! request escape the documentation root.

use vstd::prelude::*;

verus! {

/// Number of '/' characters at the front of `s`.
pub open spec fn leading_slash_count(s: Seq<char>) -> nat
    decreases s.len(),
{
    if s.len() == 0 || s[0] != '/' {
        0
    } else {
        (1 + leading_slash_count(s.skip(1))) as nat
    }
}

/// `s` with every leading '/' removed.
pub open spec fn strip_leading_slashes(s: Seq<char>) -> Seq<char> {
    s.skip(leading_slash_count(s) as int)
}

pub proof fn lemma_leading_slash_count(s: Seq<char>)
    ensures
        leading_slash_count(s) <= s.len(),
        leading_slash_count(s) < s.len() ==> s[leading_slash_count(s) as int] != '/',
        forall|j: int| 0 <= j < leading_slash_count(s) ==> s[j] == '/',
    decreases s.len(),
{
    if s.len() == 0 || s[0] != '/' {
    } else {
        let t = s.skip(1);
        lemma_leading_slash_count(t);
        let ct = leading_slash_count(t) as int;
        assert(leading_slash_count(s) == ct + 1);
        if ct < t.len() {
            assert(s[ct + 1] == t[ct]);
        }
        assert forall|j: int| 0 <= j < ct + 1 implies s[j] == '/' by {
            if j > 0 {
                assert(s[j] == t[j - 1]);
            }
        }
    }
}

/// If every character before `i` is '/' and the character at `i` (if any) is
/// not, then `i` is exactly the number of leading slashes.
pub proof fn lemma_leading_slash_count_at(s: Seq<char>, i: int)
    requires
        0 <= i <= s.len(),
        forall|j: int| 0 <= j < i ==> s[j] == '/',
        i < s.len() ==> s[i] != '/',
    ensures
        leading_slash_count(s) == i,
    decreases s.len(),
{
    if i == 0 {
    } else {
        let t = s.skip(1);
        assert forall|j: int| 0 <= j < i - 1 implies t[j] == '/' by {
            assert(t[j] == s[j + 1]);
        }
        if i - 1 < t.len() {
            assert(t[i - 1] == s[i]);
        }
        lemma_leading_slash_count_at(t, i - 1);
    }
}

/// Law: stripping leading slashes removes exactly the run of '/' characters
/// at the front, and the result has no leading '/'.
pub proof fn lemma_strip_leading_slashes(s: Seq<char>)
    ensures
        leading_slash_count(s) <= s.len(),
        forall|j: int| 0 <= j < leading_slash_count(s) ==> s[j] == '/',
        strip_leading_slashes(s).len() > 0 ==> strip_leading_slashes(s)[0] != '/',
        s == s.take(leading_slash_count(s) as int) + strip_leading_slashes(s),
{
    lemma_leading_slash_count(s);
    let c = leading_slash_count(s) as int;
    assert(s =~= s.take(c) + s.skip(c));
    if c < s.len() {
        assert(strip_leading_slashes(s)[0] == s[c]);
    }
}

/// Remove every leading '/' from `path`.
pub fn make_relative(path: &str) -> (r: String)
    ensures
        r@ == strip_leading_slashes(path@),
{
    let len: usize = path.unicode_len();
    let mut i: usize = 0;
    while i < len && path.get_char(i) == '/'
        invariant
            i <= len,
            len == path@.len(),
            forall|j: int| 0 <= j < i ==> path@[j] == '/',
        decreases len - i,
    {
        i = i + 1;
    }
    proof {
        lemma_leading_slash_count_at(path@, i as int);
        assert(path@.subrange(i as int, len as int) =~= strip_leading_slashes(path@));
    }
    path.substring_char(i, len).to_owned()
}

/// Number of '/' characters at the end of `s`.
pub open spec fn trailing_slash_count(s: Seq<char>) -> nat
    decreases s.len(),
{
    if s.len() == 0 || s[s.len() as int - 1] != '/' {
        0
    } else {
        (1 + trailing_slash_count(s.take(s.len() as int - 1))) as nat
    }
}

/// `s` with every trailing '/' removed.
pub open spec fn trim_trailing_slashes(s: Seq<char>) -> Seq<char> {
    s.take(s.len() - trailing_slash_count(s))
}

/// If every character from `e` on is '/' and the character before `e` (if
/// any) is not, then the trailing run of slashes has length `len - e`.
pub proof fn lemma_trailing_slash_count_at(s: Seq<char>, e: int)
    requires
        0 <= e <= s.len(),
        forall|j: int| e <= j < s.len() ==> s[j] == '/',
        e > 0 ==> s[e - 1] != '/',
    ensures
        trailing_slash_count(s) == s.len() - e,
    decreases s.len(),
{
    if e == s.len() {
    } else {
        assert(s[s.len() as int - 1] == '/');
        let t = s.take(s.len() as int - 1);
        assert forall|j: int| e <= j < t.len() implies t[j] == '/' by {
            assert(t[j] == s[j]);
        }
        if e > 0 {
            assert(t[e - 1] == s[e - 1]);
        }
        lemma_trailing_slash_count_at(t, e);
    }
}

/// `s` has a '.' somewhere.
pub open spec fn contains_dot(s: Seq<char>) -> bool {
    exists|i: int| 0 <= i < s.len() && s[i] == '.'
}

/// The index-document heuristic: trim trailing '/' characters; if the trimmed
/// path contains a '.' anywhere (not only in its final segment) it is kept
/// unchanged, otherwise "/index.html" is appended.
pub open spec fn index_path(s: Seq<char>) -> Seq<char> {
    let t = trim_trailing_slashes(s);
    if contains_dot(t) {
        t
    } else {
        t + "/index.html"@
    }
}

/// Trim trailing '/' characters; append "/index.html" unless the trimmed
/// path already contains a '.'.
pub fn make_index(path: &str) -> (r: String)
    ensures
        r@ == index_path(path@),
{
    let len: usize = path.unicode_len();
    let mut end: usize = len;
    while end > 0 && path.get_char(end - 1) == '/'
        invariant
            end <= len,
            len == path@.len(),
            forall|j: int| end <= j < len ==> path@[j] == '/',
        decreases end,
    {
        end = end - 1;
    }
    proof {
        lemma_trailing_slash_count_at(path@, end as int);
    }
    let trimmed: &str = path.substring_char(0, end);
    proof {
        assert(trimmed@ =~= trim_trailing_slashes(path@));
    }
    let mut has_dot = false;
    let mut i: usize = 0;
    while i < end
        invariant
            i <= end,
            trimmed@.len() == end,
            has_dot ==> contains_dot(trimmed@),
            !has_dot ==> forall|j: int| 0 <= j < i ==> trimmed@[j] != '.',
        decreases end - i,
    {
        if trimmed.get_char(i) == '.' {
            proof {
                assert(trimmed@[i as int] == '.');
            }
            has_dot = true;
        }
        i = i + 1;
    }
    if has_dot {
        trimmed.to_owned()
    } else {
        proof {
            assert(!contains_dot(trimmed@));
        }
        trimmed.to_owned().concat("/index.html")
    }
}

/// A ".." path segment begins at index `i` of `s`.
pub open spec fn parent_segment_at(s: Seq<char>, i: int) -> bool {
    &&& 0 <= i
    &&& i + 2 <= s.len()
    &&& s[i] == '.'
    &&& s[i + 1] == '.'
    &&& (i == 0 || s[i - 1] == '/')
    &&& (i + 2 == s.len() || s[i + 2] == '/')
}

/// `s` holds a ".." segment, which would climb out of the documentation root.
pub open spec fn has_parent_segment(s: Seq<char>) -> bool {
    exists|i: int| parent_segment_at(s, i)
}

/// Report whether `path` holds a ".." segment.
pub fn contains_parent_segment(path: &str) -> (r: bool)
    ensures
        r == has_parent_segment(path@),
{
    let len: usize = path.unicode_len();
    let mut i: usize = 0;
    while len >= 2 && i <= len - 2
        invariant
            len == path@.len(),
            forall|j: int| 0 <= j < i ==> !parent_segment_at(path@, j),
        decreases len - i,
    {
        let c0 = path.get_char(i);
        let c1 = path.get_char(i + 1);
        let left_ok = i == 0 || path.get_char(i - 1) == '/';
        let right_ok = i + 2 == len || path.get_char(i + 2) == '/';
        if c0 == '.' && c1 == '.' && left_ok && right_ok {
            proof {
                assert(parent_segment_at(path@, i as int));
            }
            return true;
        }
        proof {
            assert(!parent_segment_at(path@, i as int));
        }
        i = i + 1;
    }
    proof {
        assert forall|j: int| !parent_segment_at(path@, j) by {
            if 0 <= j < i {
            }
        }
    }
    false
}

/// The resolved path of a request, relative to the documentation root.
pub open spec fn resolved_rel_path(path: Seq<char>) -> Seq<char> {
    index_path(strip_leading_slashes(path))
}

/// Resolve a request path: strip leading slashes, then apply the
/// index-document heuristic.
pub fn resolve_rel_path(path: &str) -> (r: String)
    ensures
        r@ == resolved_rel_path(path@),
{
    let rel = make_relative(path);
    make_index(rel.as_str())
}

} // verus!
