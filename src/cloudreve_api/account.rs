//! Shares, WebDAV accounts, user information and quota in protocol-neutral
//! form.
use vstd::prelude::*;

use crate::api::v3::models::{ShareRequest, SiteConfig, StorageInfo, WebdavAccount};
use crate::api::v4::models::{
    CreateDavAccountRequest, CreateShareLinkRequest, DavAccount as V4DavAccount, EditShareLinkRequest,
    PermissionSetting, Quota, ShareLink,
};
use crate::cloudreve_api::path::{leaf_name, leaf_of};
use crate::envelope::{trim_of, trim_text};
use crate::error::{is_api_error, Error};
use crate::text::{concat_str, decimal, decimal_of, ends_with_char, last_char_is, str_eq};

verus! {

/// A share link.
#[derive(Debug, Clone)]
pub struct ShareItem {
    pub id: String,
    pub name: String,
    pub url: String,
    pub created_at: String,
    pub expired: bool,
}

/// Changes to a share link.
#[derive(Debug, Clone, Default)]
pub struct ShareUpdateProps {
    pub password: Option<String>,
    pub expires: Option<u32>,
}

/// A WebDAV account.
#[derive(Debug, Clone)]
pub struct DavAccount {
    pub id: String,
    pub name: String,
    pub uri: Option<String>,
    pub server: Option<String>,
    pub password: Option<String>,
    pub created_at: String,
}

/// The WebDAV accounts of the user.
#[derive(Debug)]
pub struct DavListResponse {
    pub accounts: Vec<DavAccount>,
}

/// Who is logged in.
#[derive(Debug, Clone)]
pub struct UserInfo {
    pub id: String,
    pub email: String,
    pub nickname: String,
    pub group: Option<String>,
    pub status: Option<String>,
}

/// Storage used, available in total, and free.
#[derive(Debug, Clone)]
pub struct StorageQuota {
    pub used: u64,
    pub total: u64,
    pub free: u64,
}

/// The legacy request that shares `path`: a directory when it ends in `/`,
/// without download limit, with preview, expiring after `expires_in`
/// seconds (0: never) and protected by `password` (empty: none).
pub fn share_request(path: &str, expires_in: Option<u32>, password: Option<&str>) -> (r: ShareRequest)
    ensures
        r.id@ == path@,
        r.is_dir == ends_with_char(path@, '/'),
        r.password@ == match password {
            Some(p) => p@,
            None => Seq::<char>::empty(),
        },
        r.downloads == 0,
        r.expire == match expires_in {
            Some(e) => e as i32,
            None => 0i32,
        },
        r.preview,
{
    let pw = match password {
        Some(p) => String::from_str(p),
        None => String::new(),
    };
    let expire: i32 = match expires_in {
        Some(e) => #[verifier::truncate] (e as i32),
        None => 0,
    };
    ShareRequest {
        id: String::from_str(path),
        is_dir: last_char_is(path, '/'),
        password: pw,
        downloads: 0,
        expire,
        preview: true,
    }
}

/// `r` presents the share link `s`.
pub open spec fn is_share_item_of(r: ShareItem, s: ShareLink) -> bool {
    &&& r.id@ == s.id@
    &&& r.name@ == s.name@
    &&& r.url@ == s.url@
    &&& r.created_at@ == s.created_at@
    &&& r.expired == s.expired
}

/// The share item of a current-protocol share link.
pub fn share_item(s: &ShareLink) -> (r: ShareItem)
    ensures
        is_share_item_of(r, *s),
{
    ShareItem {
        id: s.id.clone(),
        name: s.name.clone(),
        url: s.url.clone(),
        created_at: s.created_at.clone(),
        expired: s.expired,
    }
}

/// The share items of current-protocol share links, in order.
pub fn share_items(links: &Vec<ShareLink>) -> (r: Vec<ShareItem>)
    ensures
        r@.len() == links@.len(),
        forall|i: int| 0 <= i < r@.len() ==> is_share_item_of(#[trigger] r@[i], links@[i]),
{
    let mut out: Vec<ShareItem> = Vec::new();
    let mut i: usize = 0;
    while i < links.len()
        invariant
            0 <= i <= links@.len(),
            out@.len() == i,
            forall|j: int| 0 <= j < i ==> is_share_item_of(#[trigger] out@[j], links@[j]),
        decreases links@.len() - i,
    {
        out.push(share_item(&links[i]));
        i = i + 1;
    }
    out
}

/// `r` presents the legacy WebDAV record `a`: its numeric id in decimal,
/// its root as the server, no password.
pub open spec fn is_dav_of_v3(r: DavAccount, a: WebdavAccount) -> bool {
    &&& r.id@ == decimal_of(a.id as int)
    &&& r.name@ == a.name@
    &&& r.uri is None
    &&& r.server is Some && r.server->Some_0@ == a.uri@
    &&& r.password is None
    &&& r.created_at@ == a.created_at@
}

/// `r` presents the current-protocol WebDAV record `a`.
pub open spec fn is_dav_of_v4(r: DavAccount, a: V4DavAccount) -> bool {
    &&& r.id@ == a.id@
    &&& r.name@ == a.name@
    &&& r.uri is Some && r.uri->Some_0@ == a.uri@
    &&& r.server is None
    &&& r.password is Some && r.password->Some_0@ == a.password@
    &&& r.created_at@ == a.created_at@
}

/// The account of a legacy WebDAV record (see `is_dav_of_v3`).
pub fn dav_account_from_v3(a: &WebdavAccount) -> (r: DavAccount)
    ensures
        is_dav_of_v3(r, *a),
{
    DavAccount {
        id: decimal(a.id as i64),
        name: a.name.clone(),
        uri: None,
        server: Some(a.uri.clone()),
        password: None,
        created_at: a.created_at.clone(),
    }
}

/// The account of a current-protocol WebDAV record.
pub fn dav_account_from_v4(a: &V4DavAccount) -> (r: DavAccount)
    ensures
        is_dav_of_v4(r, *a),
{
    DavAccount {
        id: a.id.clone(),
        name: a.name.clone(),
        uri: Some(a.uri.clone()),
        server: None,
        password: Some(a.password.clone()),
        created_at: a.created_at.clone(),
    }
}

/// The accounts of legacy WebDAV records, in order.
pub fn dav_list_from_v3(v: &Vec<WebdavAccount>) -> (r: DavListResponse)
    ensures
        r.accounts@.len() == v@.len(),
        forall|i: int| 0 <= i < v@.len() ==> is_dav_of_v3(#[trigger] r.accounts@[i], v@[i]),
{
    let mut out: Vec<DavAccount> = Vec::new();
    let mut i: usize = 0;
    while i < v.len()
        invariant
            0 <= i <= v@.len(),
            out@.len() == i,
            forall|j: int| 0 <= j < i ==> is_dav_of_v3(#[trigger] out@[j], v@[j]),
        decreases v@.len() - i,
    {
        out.push(dav_account_from_v3(&v[i]));
        i = i + 1;
    }
    DavListResponse { accounts: out }
}

/// The accounts of current-protocol WebDAV records, in order.
pub fn dav_list_from_v4(v: &Vec<V4DavAccount>) -> (r: DavListResponse)
    ensures
        r.accounts@.len() == v@.len(),
        forall|i: int| 0 <= i < v@.len() ==> is_dav_of_v4(#[trigger] r.accounts@[i], v@[i]),
{
    let mut out: Vec<DavAccount> = Vec::new();
    let mut i: usize = 0;
    while i < v.len()
        invariant
            0 <= i <= v@.len(),
            out@.len() == i,
            forall|j: int| 0 <= j < i ==> is_dav_of_v4(#[trigger] out@[j], v@[j]),
        decreases v@.len() - i,
    {
        out.push(dav_account_from_v4(&v[i]));
        i = i + 1;
    }
    DavListResponse { accounts: out }
}

/// The request that updates the WebDAV account with id `id` among
/// `accounts`: each field given replaces the account's own, the others
/// keep it; an error when no account has that id.
pub fn dav_update_request(
    accounts: &Vec<V4DavAccount>,
    id: &str,
    uri: Option<&str>,
    name: Option<&str>,
    readonly: Option<bool>,
    proxy: Option<bool>,
) -> (r: Result<CreateDavAccountRequest, Error>)
    ensures
        r is Ok <==> exists|i: int| 0 <= i < accounts@.len() && accounts@[i].id@ == id@,
        r matches Err(e) ==> e is InvalidResponse,
        r matches Ok(q) ==> exists|i: int|
            0 <= i < accounts@.len() && accounts@[i].id@ == id@ && q.uri@ == (match uri {
                Some(u) => u@,
                None => accounts@[i].uri@,
            }) && q.name@ == (match name {
                Some(n) => n@,
                None => accounts@[i].name@,
            }),
        r matches Ok(q) ==> q.readonly == readonly && q.proxy == proxy && q.disable_sys_files is None,
{
    let mut i: usize = 0;
    while i < accounts.len()
        invariant
            0 <= i <= accounts@.len(),
            forall|j: int| 0 <= j < i ==> accounts@[j].id@ != id@,
        decreases accounts@.len() - i,
    {
        let a = &accounts[i];
        if str_eq(a.id.as_str(), id) {
            let q = CreateDavAccountRequest {
                uri: match uri {
                    Some(u) => String::from_str(u),
                    None => a.uri.clone(),
                },
                name: match name {
                    Some(n) => String::from_str(n),
                    None => a.name.clone(),
                },
                readonly,
                proxy,
                disable_sys_files: None,
            };
            assert(accounts@[i as int].id@ == id@);
            return Ok(q);
        }
        i = i + 1;
    }
    let mut m = concat_str("WebDAV account '", id);
    m.append("' not found");
    Err(Error::InvalidResponse(m))
}

/// The user of a legacy site configuration, or an error when it has none.
pub fn user_info_from_site_config(config: &SiteConfig) -> (r: Result<UserInfo, Error>)
    ensures
        config.user is None <==> r is Err,
        r matches Err(e) ==> e is InvalidResponse,
        r matches Ok(u) ==> u.id@ == config.user->Some_0.id@ && u.email@ == config.user->Some_0.user_name@
            && u.nickname@ == config.user->Some_0.nickname@ && u.group is Some
            && u.group->Some_0@ == config.user->Some_0.group.name@ && u.status is Some
            && u.status->Some_0@ == decimal_of(config.user->Some_0.status as int),
{
    match &config.user {
        Some(user) => Ok(
            UserInfo {
                id: user.id.clone(),
                email: user.user_name.clone(),
                nickname: user.nickname.clone(),
                group: Some(user.group.name.clone()),
                status: Some(decimal(user.status as i64)),
            },
        ),
        None => Err(Error::InvalidResponse(String::from_str("No user info in site config"))),
    }
}

/// `used` subtracted from `total`, or zero when it exceeds it.
pub open spec fn saturating_diff(total: u64, used: u64) -> u64 {
    if used <= total {
        (total - used) as u64
    } else {
        0
    }
}

/// The quota of a legacy storage report; negative figures wrap as the
/// unsigned conversion does.
pub fn quota_from_v3(s: &StorageInfo) -> (r: StorageQuota)
    ensures
        r.used == s.used as u64,
        r.total == s.total as u64,
        r.free == saturating_diff(s.total as u64, s.used as u64),
{
    let used: u64 = #[verifier::truncate] (s.used as u64);
    let total: u64 = #[verifier::truncate] (s.total as u64);
    let free: u64 = if used <= total { total - used } else { 0 };
    StorageQuota { used, total, free }
}

/// The quota of a current-protocol capacity report.
pub fn quota_from_v4(q: &Quota) -> (r: StorageQuota)
    ensures
        r.used == q.used,
        r.total == q.total,
        r.free == saturating_diff(q.total, q.used),
{
    let free: u64 = if q.used <= q.total { q.total - q.used } else { 0 };
    StorageQuota { used: q.used, total: q.total, free }
}

/// Relies on `serde_json::Map::new`, wrapped as `Value::Object`: an empty
/// JSON object.
#[verifier::external_body]
fn empty_json_object() -> (r: serde_json::Value) {
    serde_json::Value::Object(serde_json::Map::new())
}

/// The permission word that grants reading.
pub open spec fn read_word() -> Seq<char> {
    seq!['r', 'e', 'a', 'd']
}

/// Permissions that let everyone read, with no explicit user or group grant.
pub fn read_for_everyone() -> (r: PermissionSetting)
    ensures
        r.same_group@ == read_word(),
        r.other@ == read_word(),
        r.anonymous@ == read_word(),
        r.everyone@ == read_word(),
{
    proof {
        reveal_strlit("read");
    }
    assert("read"@ =~= read_word());
    PermissionSetting {
        user_explicit: empty_json_object(),
        group_explicit: empty_json_object(),
        same_group: String::from_str("read"),
        other: String::from_str("read"),
        anonymous: String::from_str("read"),
        everyone: String::from_str("read"),
    }
}

/// The current-protocol request that shares the resource `uri`, readable by
/// everyone, private exactly when a password is given.
pub fn share_link_request(uri: &str, expires_in: Option<u32>, password: Option<&str>) -> (r: CreateShareLinkRequest)
    ensures
        r.uri@ == uri@,
        r.is_private == Some(password is Some),
        r.expire == expires_in,
        password is None ==> r.password is None,
        password is Some ==> r.password is Some && r.password->Some_0@ == password->Some_0@,
        r.permissions.everyone@ == read_word(),
        r.share_view is None,
        r.price is None,
        r.show_readme is None,
{
    let pw = match password {
        Some(p) => Some(String::from_str(p)),
        None => None,
    };
    CreateShareLinkRequest {
        permissions: read_for_everyone(),
        uri: String::from_str(uri),
        is_private: Some(password.is_some()),
        share_view: None,
        expire: expires_in,
        price: None,
        password: pw,
        show_readme: None,
    }
}

/// The current-protocol request that edits a share link with `props`: only
/// the expiry changes, and the permissions stay readable by everyone.
pub fn share_edit_request(props: &ShareUpdateProps) -> (r: EditShareLinkRequest)
    ensures
        r.expire == props.expires,
        r.uri@.len() == 0,
        r.permissions.everyone@ == read_word(),
        r.share_view is None,
        r.price is None,
        r.show_readme is None,
{
    EditShareLinkRequest {
        permissions: read_for_everyone(),
        uri: String::new(),
        share_view: None,
        expire: props.expires,
        price: None,
        show_readme: None,
    }
}

/// The key of a legacy share whose response was a bare URL: the last
/// `/`-separated segment of the trimmed text.
pub fn share_key_from_url(raw: &str) -> (r: String)
    ensures
        r@ == leaf_of(trim_of(raw@)),
{
    let t = trim_text(raw);
    String::from_str(leaf_name(t.as_str()))
}

/// What a legacy share response decodes to when its body is an envelope:
/// its code and message, and the share key when it carried one.
#[derive(Debug, Clone)]
pub struct ShareReplyHead {
    pub code: i32,
    pub msg: String,
    pub key: Option<String>,
}

/// The key of a legacy share from the response to its creation. A non-2xx
/// status fails with the status and the trimmed body. Otherwise an envelope
/// yields its key, or its code and message when it has none; a body that is
/// no envelope is taken as the share's URL, whose last segment is the key.
pub fn share_key_from_reply(status: u16, head: Option<ShareReplyHead>, body: &str) -> (r: Result<String, Error>)
    ensures
        !(200 <= status < 300) ==> is_api_error(r, status as int, trim_of(body@)),
        200 <= status < 300 && head is None ==> (r matches Ok(k) && k@ == leaf_of(trim_of(body@))),
        200 <= status < 300 && head is Some && head->Some_0.key is Some ==> (r matches Ok(x) && x@
            == head->Some_0.key->Some_0@),
        200 <= status < 300 && head is Some && head->Some_0.key is None ==> is_api_error(
            r,
            head->Some_0.code as int,
            head->Some_0.msg@,
        ),
{
    if !(200 <= status && status < 300) {
        return Err(Error::Api { code: status as i32, message: trim_text(body) });
    }
    match head {
        Some(h) => match h.key {
            Some(k) => Ok(k),
            None => Err(Error::Api { code: h.code, message: h.msg }),
        },
        None => Ok(share_key_from_url(body)),
    }
}

} // verus!
