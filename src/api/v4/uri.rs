//! Resource URIs of the current protocol.
//!
//! A user path such as `/folder/file.txt` is addressed by the server as
//! `cloudreve://my/folder/file.txt`. The conversion is idempotent and
//! `uri_to_path` inverts it.
use vstd::prelude::*;

use crate::text::{has_prefix, starts_with, concat_str};

verus! {

/// Resource URI prefix for the user's own files.
pub const CLOUDREVE_URI_PREFIX: &'static str = "cloudreve://my/";

/// The scheme that marks a string as a resource URI already.
pub open spec fn uri_scheme() -> Seq<char> {
    seq!['c', 'l', 'o', 'u', 'd', 'r', 'e', 'v', 'e', ':', '/', '/']
}

/// The prefix of every URI that names a path of the user's own files.
pub open spec fn uri_prefix() -> Seq<char> {
    uri_scheme() + seq!['m', 'y', '/']
}

/// `p` with at most one leading `/` removed.
pub open spec fn strip_leading_slash(p: Seq<char>) -> Seq<char> {
    if p.len() > 0 && p[0] == '/' {
        p.drop_first()
    } else {
        p
    }
}

/// The canonical resource URI of a path or URI.
pub open spec fn uri_of(p: Seq<char>) -> Seq<char> {
    if has_prefix(p, uri_scheme()) {
        p
    } else {
        uri_prefix() + strip_leading_slash(p)
    }
}

/// The canonical form of a path: exactly one leading `/` in front of it.
pub open spec fn canonical_path(p: Seq<char>) -> Seq<char> {
    seq!['/'] + strip_leading_slash(p)
}

/// The path that a valid URI names: everything after the prefix, behind a `/`.
pub open spec fn path_of_uri(u: Seq<char>) -> Seq<char> {
    u.subrange(uri_prefix().len() - 1, u.len() as int)
}

proof fn lemma_prefix_extends_scheme()
    ensures
        forall|s: Seq<char>| has_prefix(s, uri_prefix()) ==> #[trigger] has_prefix(s, uri_scheme()),
{
    assert forall|s: Seq<char>| has_prefix(s, uri_prefix()) implies #[trigger] has_prefix(s, uri_scheme()) by {
        assert(s.subrange(0, 12) =~= s.subrange(0, 15).subrange(0, 12));
        assert(uri_prefix().subrange(0, 12) =~= uri_scheme());
    }
}

fn prefix_str() -> (r: &'static str)
    ensures
        r@ == uri_prefix(),
{
    proof {
        reveal_strlit("cloudreve://my/");
    }
    let r = "cloudreve://my/";
    assert(r@ =~= uri_prefix());
    r
}

fn scheme_str() -> (r: &'static str)
    ensures
        r@ == uri_scheme(),
{
    proof {
        reveal_strlit("cloudreve://");
    }
    let r = "cloudreve://";
    assert(r@ =~= uri_scheme());
    r
}

/// Converts a file path (absolute, relative, or already a URI) into its
/// resource URI.
pub fn path_to_uri(path: &str) -> (r: String)
    ensures
        r@ == uri_of(path@),
{
    if starts_with(path, scheme_str()) {
        return String::from_str(path);
    }
    let n = path.unicode_len();
    let rest = if n > 0 && path.get_char(0) == '/' {
        path.substring_char(1, n)
    } else {
        path.substring_char(0, n)
    };
    assert(rest@ =~= strip_leading_slash(path@));
    concat_str(prefix_str(), rest)
}

/// Whether `uri` is a well-formed resource URI of the user's files.
pub fn is_valid_uri(uri: &str) -> (r: bool)
    ensures
        r == has_prefix(uri@, uri_prefix()),
{
    starts_with(uri, prefix_str())
}

/// The path component of a resource URI, with one leading `/`; an error
/// that quotes the input when it lacks the URI prefix.
pub fn uri_to_path(uri: &str) -> (r: Result<&str, String>)
    ensures
        r is Ok <==> has_prefix(uri@, uri_prefix()),
        r matches Ok(p) ==> p@ == path_of_uri(uri@),
{
    if !starts_with(uri, prefix_str()) {
        let mut msg = String::from_str("Invalid Cloudreve URI: expected format 'cloudreve://my/...', got: ");
        msg.append(uri);
        return Err(msg);
    }
    let n = uri.unicode_len();
    Ok(uri.substring_char(14, n))
}

/// Converts each path to its resource URI, in order.
pub fn paths_to_uris(paths: &[&str]) -> (r: Vec<String>)
    ensures
        r@.len() == paths@.len(),
        forall|i: int| 0 <= i < paths@.len() ==> (#[trigger] r@[i])@ == uri_of(paths@[i]@),
{
    let mut out: Vec<String> = Vec::new();
    let mut i: usize = 0;
    while i < paths.len()
        invariant
            0 <= i <= paths@.len(),
            out@.len() == i,
            forall|j: int| 0 <= j < i ==> (#[trigger] out@[j])@ == uri_of(paths@[j]@),
        decreases paths@.len() - i,
    {
        out.push(path_to_uri(paths[i]));
        i = i + 1;
    }
    out
}

/// Normalising twice gives the same URI as normalising once.
pub proof fn lemma_uri_of_idempotent(x: Seq<char>)
    ensures
        uri_of(uri_of(x)) == uri_of(x),
{
    lemma_prefix_extends_scheme();
    if !has_prefix(x, uri_scheme()) {
        let u = uri_of(x);
        assert(u.subrange(0, 15) =~= uri_prefix());
        assert(has_prefix(u, uri_prefix()));
    }
}

/// A path that is not yet a URI comes back from its URI in canonical form:
/// one leading `/` followed by the path without its own leading `/`.
pub proof fn lemma_uri_path_round_trip(p: Seq<char>)
    requires
        !has_prefix(p, uri_scheme()),
    ensures
        has_prefix(uri_of(p), uri_prefix()),
        path_of_uri(uri_of(p)) == canonical_path(p),
{
    let u = uri_of(p);
    assert(u.subrange(0, 15) =~= uri_prefix());
    assert(path_of_uri(u) =~= canonical_path(p));
}

} // verus!
