//! Paginated listing under the current protocol.
//!
//! The first page of a listing says whether the server pages by cursor or
//! by offset. With a cursor, page `n` is reached only by following every
//! page's token from the first; with offsets, any page is asked for
//! directly. Fetching everything follows the tokens to the end and keeps
//! the first page's parent and storage policy.
use vstd::prelude::*;

use crate::api::v4::models::{File, ListFilesRequest, ListResponse, NavigatorProps, PaginationResults, StoragePolicy};
use crate::error::Error;
use crate::text::{concat_str, decimal, decimal_of};

verus! {

/// The page size of a single-page listing when none is given.
pub const DEFAULT_PAGE_SIZE: u32 = 100;

/// The page size of a full listing when none is given.
pub const DEFAULT_PAGE_SIZE_ALL: u32 = 500;

/// The request for one page of the listing of `path`.
pub fn list_request<'a>(path: &'a str, page: u32, page_size: u32, token: Option<&'a str>) -> (r: ListFilesRequest<'a>)
    ensures
        r.path@ == path@,
        r.page == Some(page),
        r.page_size == Some(page_size),
        r.order_by is None,
        r.order_direction is None,
        r.next_page_token == token,
{
    ListFilesRequest {
        path,
        page: Some(page),
        page_size: Some(page_size),
        order_by: None,
        order_direction: None,
        next_page_token: token,
    }
}

/// What follows a fetched page when page `target` is wanted.
#[derive(Debug, Clone)]
pub enum PageStep {
    /// The page just fetched is the one wanted.
    Done,
    /// Fetch this page next, carrying this cursor token if any.
    Fetch { page: u32, token: Option<String> },
    /// The cursor ran out: page `target` does not exist, only `available` do.
    Missing { target: u32, available: u32 },
}

/// A token that is present and not empty.
pub open spec fn usable_token(t: Option<String>) -> bool {
    t is Some && t->Some_0@.len() > 0
}

/// Decides what follows the fetched page `fetched` on the way to page
/// `target`, given the first page's pagination mode and the fetched page's
/// next-page token. By offset, the target page is asked for directly, with
/// no token. By cursor, the next page is asked for with the token just
/// received, and a missing or empty token means the target does not exist.
pub fn next_page_step(is_cursor: bool, fetched: u32, target: u32, next_token: &Option<String>) -> (r: PageStep)
    requires
        fetched <= target,
    ensures
        fetched == target ==> r is Done,
        fetched < target && !is_cursor ==> (r matches PageStep::Fetch { page, token } && page == target
            && token is None),
        fetched < target && is_cursor && usable_token(*next_token) ==> (r matches PageStep::Fetch {
            page,
            token,
        } && page == fetched + 1 && token is Some && token->Some_0@ == next_token->Some_0@),
        fetched < target && is_cursor && !usable_token(*next_token) ==> (r matches PageStep::Missing {
            target: t,
            available,
        } && t == target && available == fetched + 1),
{
    if fetched == target {
        return PageStep::Done;
    }
    if !is_cursor {
        return PageStep::Fetch { page: target, token: None };
    }
    match next_token {
        Some(t) => {
            if t.as_str().unicode_len() > 0 {
                PageStep::Fetch { page: fetched + 1, token: Some(t.clone()) }
            } else {
                PageStep::Missing { target, available: fetched + 1 }
            }
        },
        None => PageStep::Missing { target, available: fetched + 1 },
    }
}

/// The error for a page past the end of a cursor-paged listing.
pub fn page_missing_error(target: u32, available: u32) -> (r: Error)
    ensures
        r matches Error::InvalidResponse(m) && m@ == seq!['P', 'a', 'g', 'e', ' '] + decimal_of(
            target as int,
        ) + seq![
            ' ', 'd', 'o', 'e', 's', ' ', 'n', 'o', 't', ' ', 'e', 'x', 'i', 's', 't', ' ', '(',
            'o', 'n', 'l', 'y', ' ',
        ] + decimal_of(available as int) + seq![
            ' ', 'p', 'a', 'g', 'e', 's', ' ', 'a', 'v', 'a', 'i', 'l', 'a', 'b', 'l', 'e', ')',
        ],
{
    proof {
        reveal_strlit("Page ");
        reveal_strlit(" does not exist (only ");
        reveal_strlit(" pages available)");
    }
    let t = decimal(target as i64);
    let a = decimal(available as i64);
    let mut m = concat_str("Page ", t.as_str());
    m.append(" does not exist (only ");
    m.append(a.as_str());
    m.append(" pages available)");
    assert(m@ =~= seq!['P', 'a', 'g', 'e', ' '] + decimal_of(target as int) + seq![
        ' ', 'd', 'o', 'e', 's', ' ', 'n', 'o', 't', ' ', 'e', 'x', 'i', 's', 't', ' ', '(',
        'o', 'n', 'l', 'y', ' ',
    ] + decimal_of(available as int) + seq![
        ' ', 'p', 'a', 'g', 'e', 's', ' ', 'a', 'v', 'a', 'i', 'l', 'a', 'b', 'l', 'e', ')',
    ]);
    Error::InvalidResponse(m)
}

/// The pages of a full listing gathered so far.
#[derive(Debug)]
pub struct ListAccumulator {
    /// Every entry of the pages absorbed, in order.
    pub files: Vec<File>,
    /// The parent directory, from the first page.
    pub parent: Option<File>,
    /// The storage policy, from the first page.
    pub storage_policy: Option<StoragePolicy>,
    /// The pagination block of the last page.
    pub pagination: Option<PaginationResults>,
}

impl ListAccumulator {
    /// Nothing gathered yet.
    pub fn new() -> (r: ListAccumulator)
        ensures
            r.files@.len() == 0,
            r.parent is None,
            r.storage_policy is None,
            r.pagination is None,
    {
        ListAccumulator { files: Vec::new(), parent: None, storage_policy: None, pagination: None }
    }

    /// Adds one page and returns its next-page token: another page follows
    /// exactly when it is present. The parent and storage policy are taken
    /// from the first page only.
    pub fn absorb(&mut self, page: ListResponse) -> (r: Option<String>)
        ensures
            final(self).files@ == old(self).files@ + page.files@,
            old(self).parent is Some ==> final(self).parent == old(self).parent
                && final(self).storage_policy == old(self).storage_policy,
            old(self).parent is None ==> final(self).parent == Some(page.parent)
                && final(self).storage_policy == page.storage_policy,
            final(self).pagination == Some(page.pagination),
            r == page.pagination.next_token,
    {
        let ListResponse { files, parent, pagination, storage_policy, .. } = page;
        let mut files = files;
        self.files.append(&mut files);
        if self.parent.is_none() {
            self.parent = Some(parent);
            self.storage_policy = storage_policy;
        }
        let r = pagination.next_token.clone();
        self.pagination = Some(pagination);
        r
    }

    /// The combined listing, or `None` when no page was absorbed. Its
    /// navigator properties are empty but for the page size.
    pub fn finish(self, page_size: u32) -> (r: Option<ListResponse>)
        ensures
            self.parent is None || self.pagination is None <==> r is None,
            r matches Some(l) ==> l.files@ == self.files@ && Some(l.parent) == self.parent
                && l.storage_policy == self.storage_policy && Some(l.pagination) == self.pagination
                && l.props.max_page_size == page_size as i32,
    {
        match (self.parent, self.pagination) {
            (Some(parent), Some(pagination)) => {
                let props = NavigatorProps {
                    capability: String::new(),
                    max_page_size: #[verifier::truncate] (page_size as i32),
                    order_by_options: Vec::new(),
                    order_direction_options: Vec::new(),
                };
                Some(
                    ListResponse {
                        files: self.files,
                        parent,
                        pagination,
                        props,
                        context_hint: String::new(),
                        mixed_type: false,
                        storage_policy: self.storage_policy,
                        view: None,
                    },
                )
            },
            _ => None,
        }
    }
}

} // verus!
