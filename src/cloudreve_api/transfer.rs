//! File information, upload and download: what the facade decides between
//! its requests.
use vstd::prelude::*;

use crate::api::v3::models::{DirectoryList, Object, UploadFileRequest};
use crate::api::v4::models::{CreateDownloadUrlRequest, CreateUploadSessionRequest, DownloadUrlResponse};
use crate::cloudreve_api::file::FileInfo;
use crate::cloudreve_api::path::{
    leaf_name, leaf_of, normalize_path, parent_dir, parent_of, root_path, trim_all_trailing_slashes,
    trim_trailing_slash, trim_trailing_slashes,
};
use crate::cloudreve_api::resolve::{find_object, first_named, has_named, not_found, not_found_text};
use crate::error::Error;
use crate::text::{concat_str, str_eq};

verus! {

/// A field-by-field copy of a legacy entry.
pub fn copy_object(o: &Object) -> (r: Object)
    ensures
        r == *o,
{
    Object {
        id: o.id.clone(),
        name: o.name.clone(),
        path: o.path.clone(),
        thumb: o.thumb,
        size: o.size,
        object_type: o.object_type.clone(),
        date: o.date.clone(),
        create_date: o.create_date.clone(),
        source_enabled: o.source_enabled,
    }
}

/// The directory to list and the name to look for when asking for the
/// information of `path` under the legacy protocol. The root is looked up
/// in itself under the empty name.
pub open spec fn info_lookup(path: Seq<char>) -> (Seq<char>, Seq<char>) {
    let n = trim_trailing_slash(path);
    if n == root_path() {
        (root_path(), Seq::<char>::empty())
    } else {
        (parent_of(n), leaf_of(n))
    }
}

/// The directory to list and the name to look for (see `info_lookup`).
pub fn file_info_lookup(path: &str) -> (r: (&str, &str))
    ensures
        r.0@ == info_lookup(path@).0,
        r.1@ == info_lookup(path@).1,
{
    proof {
        reveal_strlit("/");
        reveal_strlit("");
    }
    assert("/"@ =~= root_path());
    assert(""@ =~= Seq::<char>::empty());
    let n = normalize_path(path);
    if str_eq(n, "/") {
        ("/", "")
    } else {
        (parent_dir(n), leaf_name(n))
    }
}

/// The information of the entry named `name` in its parent's listing, or
/// the not-found error that quotes `path`.
pub fn file_info_from_listing(list: &DirectoryList, path: &str, name: &str) -> (r: Result<FileInfo, Error>)
    ensures
        r is Ok <==> has_named(list.objects@, name@),
        r matches Ok(info) ==> exists|i: int|
            first_named(list.objects@, name@, i) && info == FileInfo::V3(list.objects@[i]),
        r is Err ==> (r matches Err(Error::NotFound(m)) && m@ == not_found_text() + path@),
{
    match find_object(&list.objects, name) {
        Some(i) => {
            let info = FileInfo::V3(copy_object(&list.objects[i]));
            assert(first_named(list.objects@, name@, i as int));
            Ok(info)
        },
        None => Err(not_found(path)),
    }
}

/// Where a legacy upload of `path` goes: the parent directory and the name.
pub fn upload_target(path: &str) -> (r: (&str, &str))
    ensures
        r.0@ == parent_of(path@),
        r.1@ == leaf_of(path@),
{
    (parent_dir(path), leaf_name(path))
}

/// The legacy request that opens an upload session for `size` bytes into
/// directory `dir` under `name`, with storage policy `policy_id`.
pub fn upload_request<'a>(dir: &'a str, name: &'a str, policy_id: &'a str, size: usize) -> (r: UploadFileRequest<'a>)
    requires
        size <= i64::MAX,
    ensures
        r.path@ == dir@,
        r.name@ == name@,
        r.policy_id@ == policy_id@,
        r.size == size as i64,
        r.last_modified == 0,
        r.mime_type@.len() == 0,
{
    proof {
        reveal_strlit("");
    }
    UploadFileRequest { path: dir, size: size as i64, name, policy_id, last_modified: 0, mime_type: "" }
}

/// The storage policy of a current-protocol upload: the one given, else the
/// one of the parent directory's listing, else `default`.
pub fn upload_policy(given: Option<&str>, listed: Option<&str>) -> (r: String)
    ensures
        given is Some ==> r@ == given->Some_0@,
        given is None && listed is Some ==> r@ == listed->Some_0@,
        given is None && listed is None ==> r@ == seq!['d', 'e', 'f', 'a', 'u', 'l', 't'],
{
    proof {
        reveal_strlit("default");
    }
    match given {
        Some(p) => String::from_str(p),
        None => match listed {
            Some(p) => String::from_str(p),
            None => {
                let r = String::from_str("default");
                assert(r@ =~= seq!['d', 'e', 'f', 'a', 'u', 'l', 't']);
                r
            },
        },
    }
}

/// The current-protocol request that opens an upload session of `size`
/// bytes at the resource `uri` with storage policy `policy_id`.
pub fn upload_session_request<'a>(uri: &'a str, policy_id: &'a str, size: u64) -> (r: CreateUploadSessionRequest<'a>)
    ensures
        r.uri@ == uri@,
        r.policy_id@ == policy_id@,
        r.size == size,
        r.last_modified is None,
        r.mime_type is None,
        r.metadata is None,
        r.entity_type is None,
{
    CreateUploadSessionRequest {
        uri,
        size,
        policy_id,
        last_modified: None,
        mime_type: None,
        metadata: None,
        entity_type: None,
    }
}

/// The full download URL of a legacy file: the base URL without trailing
/// `/`, then the relative URL the server returned.
pub fn download_url(base_url: &str, relative: &str) -> (r: String)
    ensures
        r@ == trim_all_trailing_slashes(base_url@) + relative@,
{
    concat_str(trim_trailing_slashes(base_url), relative)
}

/// The current-protocol request for a download URL of `path`, asking the
/// server to redirect or not.
pub fn download_request(path: &str, redirect: bool) -> (r: CreateDownloadUrlRequest<'_>)
    ensures
        r.uris@.len() == 1,
        r.uris@[0]@ == path@,
        r.download == Some(true),
        r.redirect == Some(redirect),
        r.entity is None,
        r.use_primary_site_url is None,
        r.skip_error is None,
        r.archive is None,
        r.no_cache is None,
{
    CreateDownloadUrlRequest {
        uris: vec![path],
        download: Some(true),
        redirect: Some(redirect),
        entity: None,
        use_primary_site_url: None,
        skip_error: None,
        archive: None,
        no_cache: None,
    }
}

/// The first URL of a download-URL response, or an error when it has none.
pub fn first_download_url(resp: &DownloadUrlResponse) -> (r: Result<String, Error>)
    ensures
        resp.urls@.len() > 0 <==> r is Ok,
        r matches Ok(u) ==> u@ == resp.urls@[0].url@,
        r matches Err(e) ==> e is InvalidResponse,
{
    if resp.urls.len() > 0 {
        Ok(resp.urls[0].url.clone())
    } else {
        Err(Error::InvalidResponse(String::from_str("No download URL returned")))
    }
}

} // verus!
