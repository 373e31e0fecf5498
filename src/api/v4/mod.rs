//! The current protocol: bearer tokens, URI-addressed resources.
use vstd::prelude::*;

use crate::api::v3::endpoint_url;
use crate::api::v4::models::ListFilesRequest;
use crate::api::v4::uri::{path_to_uri, strip_leading_slash, uri_of};
use crate::cloudreve_api::path::{trim_leading_slashes, trim_trailing_slashes};
use crate::text::{concat_str, decimal, decimal_of};

pub mod models;
pub mod uri;

verus! {

/// The state of a current-protocol client: where the server is and the
/// access token, once logged in. The transport lives beside it.
#[derive(Debug, Clone)]
pub struct ApiV4Client {
    pub base_url: String,
    pub token: Option<String>,
}

/// The current API root.
pub open spec fn v4_root() -> Seq<char> {
    seq!['/', 'a', 'p', 'i', '/', 'v', '4', '/']
}

impl ApiV4Client {
    /// A client for the server at `base_url`, not logged in.
    pub fn new(base_url: &str) -> (r: ApiV4Client)
        ensures
            r.base_url@ == base_url@,
            r.token is None,
    {
        ApiV4Client { base_url: String::from_str(base_url), token: None }
    }

    /// Replaces the access token.
    pub fn set_token(&mut self, token: String)
        ensures
            final(self).token == Some(token),
            final(self).base_url == old(self).base_url,
    {
        self.token = Some(token);
    }

    /// The full URL of an endpoint: the base URL without trailing `/`, then
    /// `/api/v4/`, then the endpoint without leading `/`.
    pub fn get_url(&self, endpoint: &str) -> (r: String)
        ensures
            r@ == endpoint_url(self.base_url@, v4_root(), endpoint@),
    {
        proof {
            reveal_strlit("/api/v4/");
        }
        let mut r = String::from_str(trim_trailing_slashes(self.base_url.as_str()));
        r.append("/api/v4/");
        r.append(trim_leading_slashes(endpoint));
        assert(r@ =~= endpoint_url(self.base_url@, v4_root(), endpoint@));
        r
    }
}

/// A query parameter `&name=value` (the separator is part of `name`), or
/// nothing when the value is absent.
pub open spec fn opt_param(name: Seq<char>, value: Option<Seq<char>>) -> Seq<char> {
    match value {
        Some(v) => name + v,
        None => Seq::<char>::empty(),
    }
}

/// The optional text of an optional string slice.
pub open spec fn opt_text(v: Option<&str>) -> Option<Seq<char>> {
    match v {
        Some(s) => Some(s@),
        None => None,
    }
}

/// The optional decimal form of an optional number.
pub open spec fn opt_decimal(v: Option<u32>) -> Option<Seq<char>> {
    match v {
        Some(n) => Some(decimal_of(n as int)),
        None => None,
    }
}

fn append_param(q: &mut String, name: &str, value: Option<&str>)
    ensures
        final(q)@ == old(q)@ + opt_param(name@, opt_text(value)),
{
    match value {
        Some(v) => {
            q.append(name);
            q.append(v);
        },
        None => {
            assert(old(q)@ + opt_param(name@, opt_text(value)) =~= old(q)@);
        },
    }
}

fn append_number(q: &mut String, name: &str, value: Option<u32>)
    ensures
        final(q)@ == old(q)@ + opt_param(name@, opt_decimal(value)),
{
    match value {
        Some(n) => {
            let d = decimal(n as i64);
            q.append(name);
            q.append(d.as_str());
        },
        None => {
            assert(old(q)@ + opt_param(name@, opt_decimal(value)) =~= old(q)@);
        },
    }
}

/// The endpoint that lists one page of a directory: `/file?uri=` and the
/// directory's URI, then each parameter the request sets, in a fixed order.
pub open spec fn list_files_query(req: ListFilesRequest) -> Seq<char> {
    seq!['/', 'f', 'i', 'l', 'e', '?', 'u', 'r', 'i', '='] + uri_of(strip_leading_slash(req.path@))
        + opt_param(seq!['&', 'p', 'a', 'g', 'e', '='], opt_decimal(req.page))
        + opt_param(seq!['&', 'p', 'a', 'g', 'e', '_', 's', 'i', 'z', 'e', '='], opt_decimal(req.page_size))
        + opt_param(seq!['&', 'o', 'r', 'd', 'e', 'r', '_', 'b', 'y', '='], opt_text(req.order_by))
        + opt_param(
            seq!['&', 'o', 'r', 'd', 'e', 'r', '_', 'd', 'i', 'r', 'e', 'c', 't', 'i', 'o', 'n', '='],
            opt_text(req.order_direction),
        ) + opt_param(
            seq!['&', 'n', 'e', 'x', 't', '_', 'p', 'a', 'g', 'e', '_', 't', 'o', 'k', 'e', 'n', '='],
            opt_text(req.next_page_token),
        )
}

/// The endpoint that lists one page of a directory (see `list_files_query`).
pub fn list_files_endpoint(req: &ListFilesRequest) -> (r: String)
    ensures
        r@ == list_files_query(*req),
{
    proof {
        reveal_strlit("/file?uri=");
        reveal_strlit("&page=");
        reveal_strlit("&page_size=");
        reveal_strlit("&order_by=");
        reveal_strlit("&order_direction=");
        reveal_strlit("&next_page_token=");
    }
    let n = req.path.unicode_len();
    let rest = if n > 0 && req.path.get_char(0) == '/' {
        req.path.substring_char(1, n)
    } else {
        req.path.substring_char(0, n)
    };
    assert(rest@ =~= strip_leading_slash(req.path@));
    let uri = path_to_uri(rest);
    assert("/file?uri="@ =~= seq!['/', 'f', 'i', 'l', 'e', '?', 'u', 'r', 'i', '=']);
    let mut q = concat_str("/file?uri=", uri.as_str());
    assert("&page="@ =~= seq!['&', 'p', 'a', 'g', 'e', '=']);
    append_number(&mut q, "&page=", req.page);
    assert("&page_size="@ =~= seq!['&', 'p', 'a', 'g', 'e', '_', 's', 'i', 'z', 'e', '=']);
    append_number(&mut q, "&page_size=", req.page_size);
    assert("&order_by="@ =~= seq!['&', 'o', 'r', 'd', 'e', 'r', '_', 'b', 'y', '=']);
    append_param(&mut q, "&order_by=", req.order_by);
    assert("&order_direction="@ =~= seq![
        '&', 'o', 'r', 'd', 'e', 'r', '_', 'd', 'i', 'r', 'e', 'c', 't', 'i', 'o', 'n', '=',
    ]);
    append_param(&mut q, "&order_direction=", req.order_direction);
    assert("&next_page_token="@ =~= seq![
        '&', 'n', 'e', 'x', 't', '_', 'p', 'a', 'g', 'e', '_', 't', 'o', 'k', 'e', 'n', '=',
    ]);
    append_param(&mut q, "&next_page_token=", req.next_page_token);
    q
}

/// The endpoint that lists the user's share links: `/share?page_size=` and
/// the page size, then each optional parameter given, in a fixed order.
pub open spec fn share_list_query(
    page_size: u32,
    order_by: Option<&str>,
    order_direction: Option<&str>,
    next_page_token: Option<&str>,
) -> Seq<char> {
    seq!['/', 's', 'h', 'a', 'r', 'e', '?', 'p', 'a', 'g', 'e', '_', 's', 'i', 'z', 'e', '=']
        + decimal_of(page_size as int) + opt_param(
        seq!['&', 'o', 'r', 'd', 'e', 'r', '_', 'b', 'y', '='],
        opt_text(order_by),
    ) + opt_param(
        seq!['&', 'o', 'r', 'd', 'e', 'r', '_', 'd', 'i', 'r', 'e', 'c', 't', 'i', 'o', 'n', '='],
        opt_text(order_direction),
    ) + opt_param(
        seq!['&', 'n', 'e', 'x', 't', '_', 'p', 'a', 'g', 'e', '_', 't', 'o', 'k', 'e', 'n', '='],
        opt_text(next_page_token),
    )
}

/// The endpoint that lists the user's share links (see `share_list_query`).
pub fn share_list_endpoint(
    page_size: u32,
    order_by: Option<&str>,
    order_direction: Option<&str>,
    next_page_token: Option<&str>,
) -> (r: String)
    ensures
        r@ == share_list_query(page_size, order_by, order_direction, next_page_token),
{
    proof {
        reveal_strlit("/share?page_size=");
        reveal_strlit("&order_by=");
        reveal_strlit("&order_direction=");
        reveal_strlit("&next_page_token=");
    }
    let d = decimal(page_size as i64);
    let mut q = concat_str("/share?page_size=", d.as_str());
    append_param(&mut q, "&order_by=", order_by);
    append_param(&mut q, "&order_direction=", order_direction);
    append_param(&mut q, "&next_page_token=", next_page_token);
    assert(q@ =~= share_list_query(page_size, order_by, order_direction, next_page_token));
    q
}

/// An endpoint that addresses the resource at `path` by its URI:
/// `endpoint?uri=` and the URI.
pub open spec fn uri_query(endpoint: Seq<char>, path: Seq<char>) -> Seq<char> {
    endpoint + seq!['?', 'u', 'r', 'i', '='] + uri_of(path)
}

fn uri_endpoint(endpoint: &str, path: &str) -> (r: String)
    ensures
        r@ == uri_query(endpoint@, path@),
{
    proof {
        reveal_strlit("?uri=");
    }
    let mut r = concat_str(endpoint, "?uri=");
    let uri = path_to_uri(path);
    r.append(uri.as_str());
    assert(r@ =~= uri_query(endpoint@, path@));
    r
}

/// The endpoint that reads a file's information, with the extended flag
/// when it is given.
pub fn file_info_endpoint(path: &str, extended: Option<bool>) -> (r: String)
    ensures
        r@ == uri_query(seq!['/', 'f', 'i', 'l', 'e', '/', 'i', 'n', 'f', 'o'], path@) + match extended {
            Some(true) => seq!['&', 'e', 'x', 't', 'e', 'n', 'd', 'e', 'd', '=', 't', 'r', 'u', 'e'],
            Some(false) => seq!['&', 'e', 'x', 't', 'e', 'n', 'd', 'e', 'd', '=', 'f', 'a', 'l', 's', 'e'],
            None => Seq::<char>::empty(),
        },
{
    proof {
        reveal_strlit("/file/info");
        reveal_strlit("&extended=true");
        reveal_strlit("&extended=false");
    }
    assert("/file/info"@ =~= seq!['/', 'f', 'i', 'l', 'e', '/', 'i', 'n', 'f', 'o']);
    let mut r = uri_endpoint("/file/info", path);
    let ghost head = r@;
    match extended {
        Some(true) => r.append("&extended=true"),
        Some(false) => r.append("&extended=false"),
        None => {},
    }
    assert(r@ =~= head + match extended {
        Some(true) => seq!['&', 'e', 'x', 't', 'e', 'n', 'd', 'e', 'd', '=', 't', 'r', 'u', 'e'],
        Some(false) => seq!['&', 'e', 'x', 't', 'e', 'n', 'd', 'e', 'd', '=', 'f', 'a', 'l', 's', 'e'],
        None => Seq::<char>::empty(),
    });
    r
}

/// The endpoint that asks for a file's thumbnail, with the dimensions
/// that are given.
pub fn thumbnail_endpoint(path: &str, width: Option<u32>, height: Option<u32>) -> (r: String)
    ensures
        r@ == uri_query(seq!['/', 'f', 'i', 'l', 'e', '/', 't', 'h', 'u', 'm', 'b'], path@) + opt_param(
            seq!['&', 'w', 'i', 'd', 't', 'h', '='],
            opt_decimal(width),
        ) + opt_param(seq!['&', 'h', 'e', 'i', 'g', 'h', 't', '='], opt_decimal(height)),
{
    proof {
        reveal_strlit("/file/thumb");
        reveal_strlit("&width=");
        reveal_strlit("&height=");
    }
    assert("/file/thumb"@ =~= seq!['/', 'f', 'i', 'l', 'e', '/', 't', 'h', 'u', 'm', 'b']);
    let mut r = uri_endpoint("/file/thumb", path);
    append_number(&mut r, "&width=", width);
    append_number(&mut r, "&height=", height);
    assert(r@ =~= uri_query(seq!['/', 'f', 'i', 'l', 'e', '/', 't', 'h', 'u', 'm', 'b'], path@) + opt_param(
        seq!['&', 'w', 'i', 'd', 't', 'h', '='],
        opt_decimal(width),
    ) + opt_param(seq!['&', 'h', 'e', 'i', 'g', 'h', 't', '='], opt_decimal(height)));
    r
}

/// The endpoint that lists a file's activities, with the paging that is
/// given.
pub fn activities_endpoint(path: &str, page: Option<u32>, page_size: Option<u32>) -> (r: String)
    ensures
        r@ == uri_query(
            seq!['/', 'f', 'i', 'l', 'e', '/', 'a', 'c', 't', 'i', 'v', 'i', 't', 'i', 'e', 's'],
            path@,
        ) + opt_param(seq!['&', 'p', 'a', 'g', 'e', '='], opt_decimal(page)) + opt_param(
            seq!['&', 'p', 'a', 'g', 'e', '_', 's', 'i', 'z', 'e', '='],
            opt_decimal(page_size),
        ),
{
    proof {
        reveal_strlit("/file/activities");
        reveal_strlit("&page=");
        reveal_strlit("&page_size=");
    }
    assert("/file/activities"@ =~= seq![
        '/', 'f', 'i', 'l', 'e', '/', 'a', 'c', 't', 'i', 'v', 'i', 't', 'i', 'e', 's',
    ]);
    let mut r = uri_endpoint("/file/activities", path);
    append_number(&mut r, "&page=", page);
    append_number(&mut r, "&page_size=", page_size);
    assert(r@ =~= uri_query(
        seq!['/', 'f', 'i', 'l', 'e', '/', 'a', 'c', 't', 'i', 'v', 'i', 't', 'i', 'e', 's'],
        path@,
    ) + opt_param(seq!['&', 'p', 'a', 'g', 'e', '='], opt_decimal(page)) + opt_param(
        seq!['&', 'p', 'a', 'g', 'e', '_', 's', 'i', 'z', 'e', '='],
        opt_decimal(page_size),
    ));
    r
}

/// The endpoint that lists WebDAV accounts: `/devices/dav?page_size=` and
/// the page size, then the cursor token when one is given.
pub fn dav_list_endpoint(page_size: u32, next_page_token: Option<&str>) -> (r: String)
    ensures
        r@ == seq![
            '/', 'd', 'e', 'v', 'i', 'c', 'e', 's', '/', 'd', 'a', 'v', '?', 'p', 'a', 'g', 'e', '_',
            's', 'i', 'z', 'e', '=',
        ] + decimal_of(page_size as int) + opt_param(
            seq!['&', 'n', 'e', 'x', 't', '_', 'p', 'a', 'g', 'e', '_', 't', 'o', 'k', 'e', 'n', '='],
            opt_text(next_page_token),
        ),
{
    proof {
        reveal_strlit("/devices/dav?page_size=");
        reveal_strlit("&next_page_token=");
    }
    let d = decimal(page_size as i64);
    let mut q = concat_str("/devices/dav?page_size=", d.as_str());
    append_param(&mut q, "&next_page_token=", next_page_token);
    assert(q@ =~= seq![
        '/', 'd', 'e', 'v', 'i', 'c', 'e', 's', '/', 'd', 'a', 'v', '?', 'p', 'a', 'g', 'e', '_',
        's', 'i', 'z', 'e', '=',
    ] + decimal_of(page_size as int) + opt_param(
        seq!['&', 'n', 'e', 'x', 't', '_', 'p', 'a', 'g', 'e', '_', 't', 'o', 'k', 'e', 'n', '='],
        opt_text(next_page_token),
    ));
    q
}

} // verus!
