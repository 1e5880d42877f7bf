//! String helpers for path handling and marker comments: substring
//! containment, separator flattening, path segment arithmetic.

use vstd::prelude::*;
use vstd::string::StrSliceExecFns;
use vstd::string::StringExecFns;

verus! {

/// `sub` occurs contiguously somewhere in `s`.
pub open spec fn spec_contains(s: Seq<char>, sub: Seq<char>) -> bool {
    exists|i: int| matches_at(s, sub, i)
}

/// `sub` occurs in `s` starting exactly at `i`.
pub open spec fn matches_at(s: Seq<char>, sub: Seq<char>, i: int) -> bool {
    0 <= i && i + sub.len() <= s.len() && s.subrange(i, i + sub.len() as int) == sub
}

pub proof fn lemma_matches_at_contains(s: Seq<char>, sub: Seq<char>, i: int)
    requires
        matches_at(s, sub, i),
    ensures
        spec_contains(s, sub),
{
}

/// A sequence contains any suffix it ends with; used to show that a freshly
/// appended marker is found again on the next scan.
pub proof fn lemma_contains_appended(prefix: Seq<char>, suffix: Seq<char>)
    ensures
        spec_contains(prefix + suffix, suffix),
{
    let s = prefix + suffix;
    assert(s.subrange(prefix.len() as int, s.len() as int) =~= suffix);
    lemma_matches_at_contains(s, suffix, prefix.len() as int);
}

/// Substring search over characters.
///
/// Relied on wherever a marker comment is recognised; the quadratic scan is
/// irrelevant at the sizes a configuration document reaches.
pub fn str_contains(s: &str, sub: &str) -> (r: bool)
    ensures
        r == spec_contains(s@, sub@),
{
    let n = s.unicode_len();
    let m = sub.unicode_len();
    if m > n {
        return false;
    }
    if m == 0 {
        proof {
            assert(s@.subrange(0, 0) =~= sub@);
            lemma_matches_at_contains(s@, sub@, 0);
        }
        return true;
    }
    let mut i: usize = 0;
    while i <= n - m
        invariant
            1 <= m <= n,
            n == s@.len(),
            m == sub@.len(),
            i <= n - m + 1,
            forall|k: int| 0 <= k < i ==> !matches_at(s@, sub@, k),
        decreases n - m - i + 1,
    {
        let mut j: usize = 0;
        let mut mismatch = false;
        while j < m
            invariant
                m <= n,
                n == s@.len(),
                m == sub@.len(),
                i + m <= n,
                j <= m,
                !mismatch ==> forall|k: int| 0 <= k < j ==> s@[i + k] == sub@[k],
                mismatch ==> !matches_at(s@, sub@, i as int),
            decreases m - j,
        {
            if s.get_char(i + j) != sub.get_char(j) {
                proof {
                    if matches_at(s@, sub@, i as int) {
                        assert(s@.subrange(i as int, i + m as int)[j as int] == sub@[j as int]);
                    }
                }
                mismatch = true;
                j = m;
            } else {
                j = j + 1;
            }
        }
        if !mismatch {
            proof {
                assert(s@.subrange(i as int, i + m as int) =~= sub@);
                lemma_matches_at_contains(s@, sub@, i as int);
            }
            return true;
        }
        i = i + 1;
    }
    false
}

/// The flattened form of a path: every separator becomes a tilde.
pub open spec fn spec_flatten(s: Seq<char>) -> Seq<char> {
    Seq::new(s.len(), |i: int| if s[i] == '/' { '~' } else { s[i] })
}

/// Relies on String::push: appends one character; vstd specifies the other
/// String operations used here but not this one.
#[verifier::external_body]
fn push_char(s: &mut String, c: char)
    ensures
        final(s)@ == old(s)@.push(c),
{
    s.push(c);
}

/// Rewrites a folder path into its remote identifier by flattening each
/// separator.
pub fn flatten_path(path: &str) -> (r: String)
    ensures
        r@ == spec_flatten(path@),
{
    let n = path.unicode_len();
    let mut out = String::new();
    let mut i: usize = 0;
    while i < n
        invariant
            n == path@.len(),
            i <= n,
            out@ =~= spec_flatten(path@).subrange(0, i as int),
        decreases n - i,
    {
        let c = path.get_char(i);
        if c == '/' {
            push_char(&mut out, '~');
        } else {
            push_char(&mut out, c);
        }
        proof {
            assert(out@ =~= spec_flatten(path@).subrange(0, i + 1));
        }
        i = i + 1;
    }
    proof {
        assert(out@ =~= spec_flatten(path@));
    }
    out
}

/// The position one past the last separator of `s`, or 0 if there is none.
pub open spec fn spec_after_last_sep(s: Seq<char>) -> int
    decreases s.len(),
{
    if s.len() == 0 {
        0
    } else if s[s.len() - 1] == '/' {
        s.len() as int
    } else {
        spec_after_last_sep(s.drop_last())
    }
}

pub proof fn lemma_after_last_sep_bounds(s: Seq<char>)
    ensures
        0 <= spec_after_last_sep(s) <= s.len(),
        forall|k: int| spec_after_last_sep(s) <= k < s.len() ==> s[k] != '/',
        spec_after_last_sep(s) > 0 ==> s[spec_after_last_sep(s) - 1] == '/',
    decreases s.len(),
{
    if s.len() > 0 && s[s.len() - 1] != '/' {
        lemma_after_last_sep_bounds(s.drop_last());
        assert forall|k: int| spec_after_last_sep(s) <= k < s.len() implies s[k] != '/' by {
            if k < s.len() - 1 {
                assert(s.drop_last()[k] == s[k]);
            }
        }
        if spec_after_last_sep(s) > 0 {
            assert(s.drop_last()[spec_after_last_sep(s) - 1] == s[spec_after_last_sep(s) - 1]);
        }
    }
}

/// The characterisation above pins the position down uniquely, which lets the
/// executable scan stop at the first separator it meets from the right.
proof fn lemma_after_last_sep_unique(s: Seq<char>, q: int)
    requires
        0 <= q <= s.len(),
        q == 0 || s[q - 1] == '/',
        forall|k: int| q <= k < s.len() ==> s[k] != '/',
    ensures
        q == spec_after_last_sep(s),
    decreases s.len(),
{
    if s.len() == 0 {
    } else if s[s.len() - 1] == '/' {
        assert(q == s.len());
    } else {
        assert(q < s.len());
        lemma_after_last_sep_unique(s.drop_last(), q);
    }
}

/// Everything up to (excluding) the final separator; the lone leading
/// separator is kept, so the parent of `/a` is `/` while the root `/` and a
/// separator-free sequence both yield the empty sequence.
pub open spec fn spec_parent_of(s: Seq<char>) -> Seq<char> {
    let p = spec_after_last_sep(s);
    if p == 0 || s.len() <= 1 {
        Seq::empty()
    } else if p == 1 {
        s.subrange(0, 1)
    } else {
        s.subrange(0, p - 1)
    }
}

/// The last path segment: everything after the final separator.
pub open spec fn spec_last_segment(s: Seq<char>) -> Seq<char> {
    s.subrange(spec_after_last_sep(s), s.len() as int)
}

/// Scans for the position one past the last separator.
fn after_last_sep(path: &str) -> (p: usize)
    ensures
        p == spec_after_last_sep(path@),
{
    let n = path.unicode_len();
    let mut p: usize = n;
    while p > 0
        invariant
            n == path@.len(),
            p <= n,
            forall|k: int| p <= k < n ==> path@[k] != '/',
        decreases p,
    {
        if path.get_char(p - 1) == '/' {
            proof {
                lemma_after_last_sep_unique(path@, p as int);
            }
            return p;
        }
        p = p - 1;
    }
    proof {
        lemma_after_last_sep_unique(path@, 0);
    }
    0
}

/// The parent of a path, in path form (separators intact).
pub fn parent_path(path: &str) -> (r: String)
    ensures
        r@ == spec_parent_of(path@),
{
    let n = path.unicode_len();
    let p = after_last_sep(path);
    proof {
        lemma_after_last_sep_bounds(path@);
    }
    if p == 0 || n <= 1 {
        String::new()
    } else if p == 1 {
        path.substring_char(0, 1).to_owned()
    } else {
        path.substring_char(0, p - 1).to_owned()
    }
}

/// The last segment of a path: the name under which the object sits in its
/// parent.
pub fn last_segment(path: &str) -> (r: String)
    ensures
        r@ == spec_last_segment(path@),
{
    let n = path.unicode_len();
    let p = after_last_sep(path);
    proof {
        lemma_after_last_sep_bounds(path@);
    }
    path.substring_char(p, n).to_owned()
}

/// `s` without its leading separators.
pub open spec fn spec_trim_leading_seps(s: Seq<char>) -> Seq<char>
    decreases s.len(),
{
    if s.len() > 0 && s[0] == '/' {
        spec_trim_leading_seps(s.subrange(1, s.len() as int))
    } else {
        s
    }
}

fn trim_leading_seps(s: &str) -> (r: String)
    ensures
        r@ == spec_trim_leading_seps(s@),
{
    let n = s.unicode_len();
    proof {
        assert(s@.subrange(0, n as int) =~= s@);
    }
    let mut i: usize = 0;
    while i < n && s.get_char(i) == '/'
        invariant
            n == s@.len(),
            i <= n,
            forall|k: int| 0 <= k < i ==> s@[k] == '/',
            spec_trim_leading_seps(s@) == spec_trim_leading_seps(
                s@.subrange(i as int, n as int),
            ),
        decreases n - i,
    {
        proof {
            assert(s@.subrange(i as int, n as int).subrange(1, n - i) =~= s@.subrange(
                i + 1,
                n as int,
            ));
        }
        i = i + 1;
    }
    proof {
        assert(spec_trim_leading_seps(s@.subrange(i as int, n as int)) == s@.subrange(
            i as int,
            n as int,
        ));
    }
    s.substring_char(i, n).to_owned()
}

/// The path of a child entry: the key, stripped of leading separators, joined
/// below the parent path.
pub open spec fn spec_child_path(parent: Seq<char>, key: Seq<char>) -> Seq<char> {
    let k = spec_trim_leading_seps(key);
    if parent.len() > 0 && parent[parent.len() - 1] == '/' {
        parent + k
    } else {
        parent + seq!['/'] + k
    }
}

/// The root's flattened identifier names the root alone: any child path —
/// a key with something left after trimming, joined below any parent —
/// flattens to something longer, so the root's identity is never mistaken
/// for a named folder's.
pub proof fn lemma_root_id_distinct(parent: Seq<char>, key: Seq<char>)
    requires
        parent.len() >= 1,
        spec_trim_leading_seps(key).len() > 0,
    ensures
        spec_flatten(spec_child_path(parent, key)) != spec_flatten("/"@),
{
    reveal_strlit("/");
    assert(spec_flatten(spec_child_path(parent, key)).len() >= 2);
    assert(spec_flatten("/"@).len() == 1);
}

/// Joins a child key under a parent path, the way the tree assigns paths
/// top-down from the root `/`.
pub fn child_path(parent: &str, key: &str) -> (r: String)
    ensures
        r@ == spec_child_path(parent@, key@),
{
    let n = parent.unicode_len();
    let k = trim_leading_seps(key);
    let mut out = parent.to_owned();
    if n == 0 || parent.get_char(n - 1) != '/' {
        push_char(&mut out, '/');
        proof {
            assert(out@ =~= parent@ + seq!['/']);
        }
    }
    out.append(k.as_str());
    out
}

} // verus!
