//! The legacy protocol: cookie sessions, identifier-addressed mutations.
use vstd::prelude::*;

use crate::cloudreve_api::path::{
    normalize_path, trim_all_leading_slashes, trim_all_trailing_slashes, trim_leading_slashes,
    trim_trailing_slash, trim_trailing_slashes,
};
use crate::envelope::{trim_of, trim_text};
use crate::text::{concat_str, has_prefix, starts_with};

pub mod models;

verus! {

/// The state of a legacy-protocol client: where the server is and the
/// session cookie, once logged in. The transport lives beside it.
#[derive(Debug, Clone)]
pub struct ApiV3Client {
    pub base_url: String,
    pub session_cookie: Option<String>,
}

/// The URL of an endpoint under a base URL and an API root such as `/api/v3/`.
pub open spec fn endpoint_url(base: Seq<char>, root: Seq<char>, endpoint: Seq<char>) -> Seq<char> {
    trim_all_trailing_slashes(base) + root + trim_all_leading_slashes(endpoint)
}

/// The legacy API root.
pub open spec fn v3_root() -> Seq<char> {
    seq!['/', 'a', 'p', 'i', '/', 'v', '3', '/']
}

/// What `urlencoding::encode` returns for a string.
pub uninterp spec fn url_encoded_of(s: Seq<char>) -> Seq<char>;

/// Relies on `urlencoding::encode`: the percent-encoding of the string's
/// UTF-8 bytes, which depends on the string alone.
#[verifier::external_body]
fn url_encode(s: &str) -> (r: String)
    ensures
        r@ == url_encoded_of(s@),
{
    urlencoding::encode(s).into_owned()
}

/// The endpoint that lists the directory `path`: the path without a
/// trailing `/`, percent-encoded, behind `/directory`.
pub fn list_directory_endpoint(path: &str) -> (r: String)
    ensures
        r@ == seq!['/', 'd', 'i', 'r', 'e', 'c', 't', 'o', 'r', 'y'] + url_encoded_of(
            trim_trailing_slash(path@),
        ),
{
    proof {
        reveal_strlit("/directory");
    }
    let encoded = url_encode(normalize_path(path));
    let r = concat_str("/directory", encoded.as_str());
    assert(r@ =~= seq!['/', 'd', 'i', 'r', 'e', 'c', 't', 'o', 'r', 'y'] + url_encoded_of(
        trim_trailing_slash(path@),
    ));
    r
}

impl ApiV3Client {
    /// A client for the server at `base_url`, not logged in.
    pub fn new(base_url: &str) -> (r: ApiV3Client)
        ensures
            r.base_url@ == base_url@,
            r.session_cookie is None,
    {
        ApiV3Client { base_url: String::from_str(base_url), session_cookie: None }
    }

    /// Replaces the session cookie.
    pub fn set_session_cookie(&mut self, cookie: String)
        ensures
            final(self).session_cookie == Some(cookie),
            final(self).base_url == old(self).base_url,
    {
        self.session_cookie = Some(cookie);
    }

    /// The session cookie, if any.
    pub fn get_session_cookie(&self) -> (r: Option<&str>)
        ensures
            match self.session_cookie {
                Some(c) => r is Some && r->Some_0@ == c@,
                None => r is None,
            },
    {
        match &self.session_cookie {
            Some(c) => Some(c.as_str()),
            None => None,
        }
    }

    /// Forgets the session cookie.
    pub fn clear_session_cookie(&mut self)
        ensures
            final(self).session_cookie is None,
            final(self).base_url == old(self).base_url,
    {
        self.session_cookie = None;
    }

    /// The full URL of an endpoint: the base URL without trailing `/`, then
    /// `/api/v3/`, then the endpoint without leading `/`.
    pub fn get_url(&self, endpoint: &str) -> (r: String)
        ensures
            r@ == endpoint_url(self.base_url@, v3_root(), endpoint@),
    {
        proof {
            reveal_strlit("/api/v3/");
        }
        let mut r = String::from_str(trim_trailing_slashes(self.base_url.as_str()));
        r.append("/api/v3/");
        r.append(trim_leading_slashes(endpoint));
        assert(r@ =~= endpoint_url(self.base_url@, v3_root(), endpoint@));
        r
    }
}

/// The name under which the legacy server sets its session cookie,
/// followed by `=`.
pub open spec fn session_cookie_prefix() -> Seq<char> {
    seq![
        'c', 'l', 'o', 'u', 'd', 'r', 'e', 'v', 'e', '-', 's', 'e', 's', 's', 'i', 'o', 'n', '=',
    ]
}

/// `s[a..b]` is one of the `;`-separated parts of `s`.
pub open spec fn is_part(s: Seq<char>, a: int, b: int) -> bool {
    &&& 0 <= a <= b <= s.len()
    &&& (a == 0 || s[a - 1] == ';')
    &&& (b == s.len() || s[b] == ';')
    &&& forall|k: int| a <= k < b ==> s[k] != ';'
}

/// The part `s[a..b]` without surrounding white space sets the session cookie.
pub open spec fn sets_session(s: Seq<char>, a: int, b: int) -> bool {
    has_prefix(trim_of(s.subrange(a, b)), session_cookie_prefix())
}

/// No part that ends before position `a` sets the session cookie.
pub open spec fn first_session_part(s: Seq<char>, a: int) -> bool {
    forall|a2: int, b2: int| is_part(s, a2, b2) && b2 < a ==> !sets_session(s, a2, b2)
}

/// The session cookie's value set by the part `s[a..b]`.
pub open spec fn session_value(s: Seq<char>, a: int, b: int) -> Seq<char> {
    let t = trim_of(s.subrange(a, b));
    t.subrange(session_cookie_prefix().len() as int, t.len() as int)
}

proof fn lemma_part_starts_at(s: Seq<char>, start: int, i: int, a: int, b: int)
    requires
        0 <= start <= i <= s.len(),
        start == 0 || s[start - 1] == ';',
        i == s.len() || s[i] == ';',
        forall|k: int| start <= k < i ==> s[k] != ';',
        is_part(s, a, b),
        start <= b <= i,
    ensures
        a == start && b == i,
{
    if a < start {
        assert(s[start - 1] != ';');
    }
    if a > start {
        assert(s[a - 1] != ';');
    }
    if b < i {
        assert(s[b] != ';');
    }
}

/// The value of the session cookie that a `Set-Cookie` header sets: the
/// first of its `;`-separated parts that, trimmed, starts with
/// `cloudreve-session=`, without that name.
pub fn session_from_set_cookie(header: &str) -> (r: Option<String>)
    ensures
        r matches Some(v) ==> exists|a: int, b: int|
            is_part(header@, a, b) && sets_session(header@, a, b) && v@ == session_value(header@, a, b)
                && first_session_part(header@, a),
        r is None ==> forall|a: int, b: int|
            is_part(header@, a, b) ==> !sets_session(header@, a, b),
{
    proof {
        reveal_strlit("cloudreve-session=");
    }
    let prefix = "cloudreve-session=";
    assert(prefix@ =~= session_cookie_prefix());
    let n = header.unicode_len();
    let mut start: usize = 0;
    let mut i: usize = 0;
    while i < n
        invariant
            n == header@.len(),
            0 <= start <= i <= n,
            start == 0 || header@[start - 1] == ';',
            forall|k: int| start <= k < i ==> header@[k] != ';',
            prefix@ == session_cookie_prefix(),
            forall|a: int, b: int| is_part(header@, a, b) && b < start ==> !sets_session(header@, a, b),
        decreases n - i,
    {
        if header.get_char(i) == ';' {
            let t = trim_text(header.substring_char(start, i));
            if starts_with(t.as_str(), prefix) {
                let m = t.as_str().unicode_len();
                let v = t.as_str().substring_char(18, m);
                proof {
                    assert(is_part(header@, start as int, i as int));
                }
                return Some(String::from_str(v));
            }
            proof {
                assert forall|a: int, b: int| is_part(header@, a, b) && b < i + 1 implies !sets_session(header@, a, b) by {
                    if b >= start {
                        lemma_part_starts_at(header@, start as int, i as int, a, b);
                    }
                }
            }
            start = i + 1;
        }
        i = i + 1;
    }
    let t = trim_text(header.substring_char(start, n));
    if starts_with(t.as_str(), prefix) {
        let m = t.as_str().unicode_len();
        let v = t.as_str().substring_char(18, m);
        proof {
            assert(is_part(header@, start as int, n as int));
        }
        return Some(String::from_str(v));
    }
    proof {
        assert forall|a: int, b: int| is_part(header@, a, b) implies !sets_session(header@, a, b) by {
            if b >= start {
                lemma_part_starts_at(header@, start as int, n as int, a, b);
            }
        }
    }
    None
}

/// The text of a flag in a query string.
pub open spec fn bool_text(b: bool) -> Seq<char> {
    if b {
        seq!['t', 'r', 'u', 'e']
    } else {
        seq!['f', 'a', 'l', 's', 'e']
    }
}

/// The endpoint that reads the properties of an object: `/object/property/`
/// and its id, then the flags that are given as query parameters.
pub open spec fn object_property_query(id: Seq<char>, is_folder: Option<bool>, trace_root: Option<bool>) -> Seq<char> {
    let base = seq!['/', 'o', 'b', 'j', 'e', 'c', 't', '/', 'p', 'r', 'o', 'p', 'e', 'r', 't', 'y', '/'] + id;
    let f = seq!['i', 's', '_', 'f', 'o', 'l', 'd', 'e', 'r', '='];
    let t = seq!['t', 'r', 'a', 'c', 'e', '_', 'r', 'o', 'o', 't', '='];
    match (is_folder, trace_root) {
        (None, None) => base,
        (Some(x), None) => base + seq!['?'] + f + bool_text(x),
        (None, Some(y)) => base + seq!['?'] + t + bool_text(y),
        (Some(x), Some(y)) => base + seq!['?'] + f + bool_text(x) + seq!['&'] + t + bool_text(y),
    }
}

fn flag_text(b: bool) -> (r: &'static str)
    ensures
        r@ == bool_text(b),
{
    proof {
        reveal_strlit("true");
        reveal_strlit("false");
    }
    let r = if b { "true" } else { "false" };
    assert(r@ =~= bool_text(b));
    r
}

/// The endpoint that reads the properties of an object (see
/// `object_property_query`).
pub fn object_property_endpoint(id: &str, is_folder: Option<bool>, trace_root: Option<bool>) -> (r: String)
    ensures
        r@ == object_property_query(id@, is_folder, trace_root),
{
    proof {
        reveal_strlit("/object/property/");
        reveal_strlit("?is_folder=");
        reveal_strlit("&trace_root=");
        reveal_strlit("?trace_root=");
    }
    let mut r = concat_str("/object/property/", id);
    match is_folder {
        Some(x) => {
            r.append("?is_folder=");
            r.append(flag_text(x));
            match trace_root {
                Some(y) => {
                    r.append("&trace_root=");
                    r.append(flag_text(y));
                },
                None => {},
            }
        },
        None => match trace_root {
            Some(y) => {
                r.append("?trace_root=");
                r.append(flag_text(y));
            },
            None => {},
        },
    }
    assert(r@ =~= object_property_query(id@, is_folder, trace_root));
    r
}

} // verus!
