//! Splitting slash-separated paths into parent directory and leaf name.
use vstd::prelude::*;

use crate::text::{ends_with_char, last_char_is, str_eq};

verus! {

/// The root path, `/`.
pub open spec fn root_path() -> Seq<char> {
    seq!['/']
}

/// `p` with one trailing `/` removed, unless `p` is the root.
pub open spec fn trim_trailing_slash(p: Seq<char>) -> Seq<char> {
    if ends_with_char(p, '/') && p != root_path() {
        p.drop_last()
    } else {
        p
    }
}

/// The index of the last `/` in `s`, or -1 when it has none.
pub open spec fn last_slash(s: Seq<char>) -> int
    decreases s.len(),
{
    if s.len() == 0 {
        -1
    } else if s.last() == '/' {
        s.len() - 1
    } else {
        last_slash(s.drop_last())
    }
}

/// The directory part of `p`: everything before its last `/`, or the root
/// when that `/` is the first character or there is none.
pub open spec fn parent_of(p: Seq<char>) -> Seq<char> {
    if last_slash(p) <= 0 {
        root_path()
    } else {
        p.subrange(0, last_slash(p))
    }
}

/// The last segment of `p`: everything after its last `/`.
pub open spec fn leaf_of(p: Seq<char>) -> Seq<char> {
    p.subrange(last_slash(p) + 1, p.len() as int)
}

proof fn lemma_last_slash_bounds(s: Seq<char>)
    ensures
        -1 <= last_slash(s) < s.len(),
        last_slash(s) >= 0 ==> s[last_slash(s)] == '/',
        forall|j: int| last_slash(s) < j < s.len() ==> s[j] != '/',
    decreases s.len(),
{
    if s.len() > 0 && s.last() != '/' {
        let t = s.drop_last();
        lemma_last_slash_bounds(t);
        assert forall|j: int| last_slash(s) < j < s.len() implies s[j] != '/' by {
            if j < s.len() - 1 {
                assert(t[j] == s[j]);
            }
        }
    }
}

proof fn lemma_last_slash_of(s: Seq<char>, k: int)
    requires
        -1 <= k < s.len(),
        k >= 0 ==> s[k] == '/',
        forall|j: int| k < j < s.len() ==> s[j] != '/',
    ensures
        last_slash(s) == k,
    decreases s.len(),
{
    if s.len() > 0 && k != s.len() - 1 {
        assert(s.last() != '/');
        lemma_last_slash_of(s.drop_last(), k);
    }
}

/// The index of the last `/` in `s`, if any.
pub fn find_last_slash(s: &str) -> (r: Option<usize>)
    ensures
        r is None <==> last_slash(s@) == -1,
        r matches Some(k) ==> k as int == last_slash(s@),
{
    let n = s.unicode_len();
    let mut i: usize = n;
    while i > 0
        invariant
            n == s@.len(),
            0 <= i <= n,
            forall|j: int| i <= j < n ==> s@[j] != '/',
        decreases i,
    {
        if s.get_char(i - 1) == '/' {
            proof {
                lemma_last_slash_of(s@, i - 1);
            }
            return Some(i - 1);
        }
        i = i - 1;
    }
    proof {
        lemma_last_slash_of(s@, -1);
    }
    None
}

/// `path` without one trailing `/`; the root stays as it is.
pub fn normalize_path(path: &str) -> (r: &str)
    ensures
        r@ == trim_trailing_slash(path@),
{
    proof {
        reveal_strlit("/");
    }
    assert("/"@ =~= root_path());
    if last_char_is(path, '/') && !str_eq(path, "/") {
        let n = path.unicode_len();
        let r = path.substring_char(0, n - 1);
        assert(r@ =~= path@.drop_last());
        r
    } else {
        path
    }
}

/// The directory part of `path` (see `parent_of`).
pub fn parent_dir(path: &str) -> (r: &str)
    ensures
        r@ == parent_of(path@),
{
    proof {
        reveal_strlit("/");
        lemma_last_slash_bounds(path@);
    }
    assert("/"@ =~= root_path());
    match find_last_slash(path) {
        Some(k) => {
            if k == 0 {
                "/"
            } else {
                path.substring_char(0, k)
            }
        },
        None => "/",
    }
}

/// The last segment of `path` (see `leaf_of`).
pub fn leaf_name(path: &str) -> (r: &str)
    ensures
        r@ == leaf_of(path@),
{
    proof {
        lemma_last_slash_bounds(path@);
    }
    let n = path.unicode_len();
    match find_last_slash(path) {
        Some(k) => path.substring_char(k + 1, n),
        None => path.substring_char(0, n),
    }
}

/// Joins a directory and a name with one `/`, dropping trailing slashes
/// of the directory.
pub open spec fn join_path(dir: Seq<char>, name: Seq<char>) -> Seq<char> {
    trim_all_trailing_slashes(dir) + seq!['/'] + name
}

/// `s` without any of its trailing `/` characters.
pub open spec fn trim_all_trailing_slashes(s: Seq<char>) -> Seq<char>
    decreases s.len(),
{
    if s.len() > 0 && s.last() == '/' {
        trim_all_trailing_slashes(s.drop_last())
    } else {
        s
    }
}

/// `s` without any of its trailing `/` characters.
pub fn trim_trailing_slashes(s: &str) -> (r: &str)
    ensures
        r@ == trim_all_trailing_slashes(s@),
{
    let n = s.unicode_len();
    let mut i: usize = n;
    assert(s@.subrange(0, n as int) =~= s@);
    while i > 0 && s.get_char(i - 1) == '/'
        invariant
            n == s@.len(),
            0 <= i <= n,
            trim_all_trailing_slashes(s@.subrange(0, i as int)) == trim_all_trailing_slashes(s@),
        decreases i,
    {
        assert(s@.subrange(0, i as int).drop_last() =~= s@.subrange(0, i - 1));
        i = i - 1;
    }
    let r = s.substring_char(0, i);
    assert(r@ == trim_all_trailing_slashes(r@));
    r
}

/// `dir` and `name` joined by one `/` (see `join_path`).
pub fn join(dir: &str, name: &str) -> (r: String)
    ensures
        r@ == join_path(dir@, name@),
{
    let mut r = String::from_str(trim_trailing_slashes(dir));
    r.append("/");
    r.append(name);
    proof {
        reveal_strlit("/");
    }
    assert(r@ =~= join_path(dir@, name@));
    r
}

/// `s` without any of its leading `/` characters.
pub open spec fn trim_all_leading_slashes(s: Seq<char>) -> Seq<char>
    decreases s.len(),
{
    if s.len() > 0 && s[0] == '/' {
        trim_all_leading_slashes(s.drop_first())
    } else {
        s
    }
}

/// `s` without any of its leading `/` characters.
pub fn trim_leading_slashes(s: &str) -> (r: &str)
    ensures
        r@ == trim_all_leading_slashes(s@),
{
    let n = s.unicode_len();
    let mut i: usize = 0;
    assert(s@.subrange(0, n as int) =~= s@);
    while i < n && s.get_char(i) == '/'
        invariant
            n == s@.len(),
            0 <= i <= n,
            trim_all_leading_slashes(s@.subrange(i as int, n as int)) == trim_all_leading_slashes(s@),
        decreases n - i,
    {
        assert(s@.subrange(i as int, n as int).drop_first() =~= s@.subrange(i + 1, n as int));
        i = i + 1;
    }
    s.substring_char(i, n)
}

} // verus!
