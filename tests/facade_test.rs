use cloudreve_api::api::v3::models::{DirectoryList, Object, Policy, SiteConfig, StorageInfo, User, UserGroup, WebdavAccount};
use cloudreve_api::api::v3::{list_directory_endpoint, ApiV3Client};
use cloudreve_api::api::v4::models::{
    DavAccount as V4DavAccount, DownloadUrlItem, DownloadUrlResponse, File, FileType, ListResponse,
    NavigatorProps, PaginationResults, Quota, ShareSourceType, SiteConfigSection, StoragePolicy,
    UploadSessionResponse,
};
use cloudreve_api::api::v4::uri::{path_to_uri, uri_to_path};
use cloudreve_api::api::v4::ApiV4Client;
use cloudreve_api::api::ApiVersion;
use cloudreve_api::client::{on_ping, start_probe, ProbeAction, ProbeState, UnifiedClient};
use cloudreve_api::cloudreve_api::account::{
    dav_list_from_v4, share_key_from_reply, ShareReplyHead,
    dav_account_from_v3, dav_update_request, quota_from_v3, quota_from_v4, share_link_request,
    share_request, user_info_from_site_config,
};
use cloudreve_api::cloudreve_api::batch::{
    group_by_parent, group_delete_request, members, resolve_group, DeleteTarget,
};
use cloudreve_api::cloudreve_api::pagination::{next_page_step, page_missing_error, ListAccumulator, PageStep};
use cloudreve_api::cloudreve_api::path::{join, leaf_name, normalize_path, parent_dir};
use cloudreve_api::cloudreve_api::plan::{copy_next, plan_copy, plan_move, plan_rename, CopyControl, CopyStep, MovePlan};
use cloudreve_api::cloudreve_api::resolve::{lookup_target, not_found_with_hint, rename_request, resolve_entry};
use cloudreve_api::cloudreve_api::transfer::{
    download_url, file_info_from_listing, file_info_lookup, first_download_url, upload_policy,
    upload_request, upload_target,
};
use cloudreve_api::cloudreve_api::{CloudreveAPI, DeleteResult, FileInfo, FileList, FileListAll, TokenInfo};
use cloudreve_api::envelope::{check_response, EnvelopeHead};
use cloudreve_api::Error;

fn object(id: &str, name: &str, kind: &str, size: i64) -> Object {
    Object {
        id: id.to_string(),
        name: name.to_string(),
        path: "/".to_string(),
        thumb: false,
        size,
        object_type: kind.to_string(),
        date: "2024-05-01".to_string(),
        create_date: "2024-04-30".to_string(),
        source_enabled: false,
    }
}

fn listing(objects: Vec<Object>) -> DirectoryList {
    DirectoryList {
        parent: "9zh3".to_string(),
        objects,
        policy: Policy {
            id: "z3hJ".to_string(),
            name: "Default storage policy".to_string(),
            policy_type: "local".to_string(),
            max_size: 0,
            file_type: None,
        },
    }
}

fn v4_file(name: &str, kind: FileType, size: i64) -> File {
    File {
        kind,
        id: format!("id-{}", name),
        name: name.to_string(),
        permission: None,
        created_at: "2024-01-01".to_string(),
        updated_at: "2024-01-02".to_string(),
        size,
        metadata: None,
        path: format!("cloudreve://my/{}", name),
        capability: None,
        owned: true,
        primary_entity: None,
    }
}

fn policy(id: &str) -> StoragePolicy {
    StoragePolicy {
        id: id.to_string(),
        name: format!("policy {}", id),
        type_: "local".to_string(),
        max_size: 0,
        allowed_suffix: None,
        denied_suffix: None,
        allowed_name_regexp: None,
        denied_name_regexp: None,
        relay: None,
        weight: None,
        children: None,
        chunk_concurrency: None,
    }
}

fn page(parent: &str, files: Vec<File>, next: Option<&str>, pol: Option<StoragePolicy>) -> ListResponse {
    ListResponse {
        files,
        parent: v4_file(parent, FileType::Folder, 0),
        pagination: PaginationResults {
            page: 0,
            page_size: 2,
            total_items: Some(3),
            next_token: next.map(|t| t.to_string()),
            is_cursor: true,
        },
        props: NavigatorProps {
            capability: String::new(),
            max_page_size: 2,
            order_by_options: Vec::new(),
            order_direction_options: Vec::new(),
        },
        context_hint: String::new(),
        mixed_type: false,
        storage_policy: pol,
        view: None,
    }
}

#[test]
fn normalizing_twice_is_normalizing_once() {
    for p in ["/", "docs/a.txt", "/docs/a.txt", "cloudreve://my/x", "cloudreve://other/y", ""] {
        let once = path_to_uri(p);
        assert_eq!(path_to_uri(&once), once);
    }
    assert_eq!(path_to_uri("/"), "cloudreve://my/");
}

#[test]
fn uri_round_trip_gives_canonical_path() {
    assert_eq!(uri_to_path(&path_to_uri("docs/a.txt")).unwrap(), "/docs/a.txt");
    assert_eq!(uri_to_path(&path_to_uri("/docs/a.txt")).unwrap(), "/docs/a.txt");
    assert_eq!(uri_to_path(&path_to_uri("/")).unwrap(), "/");
    assert_eq!(uri_to_path(&path_to_uri("")).unwrap(), "/");
}

#[test]
fn detection_prefers_current_protocol() {
    let (s, a) = start_probe(None);
    assert_eq!(s, ProbeState::ProbingV4);
    assert_eq!(a, ProbeAction::PingV4);
    assert_eq!(on_ping(ProbeState::ProbingV4, true), (ProbeState::V4Active, ProbeAction::Connect(ApiVersion::V4)));
    assert_eq!(on_ping(ProbeState::ProbingV4, false), (ProbeState::ProbingV3, ProbeAction::PingV3));
    assert_eq!(on_ping(ProbeState::ProbingV3, true), (ProbeState::V3Active, ProbeAction::Connect(ApiVersion::V3)));
    assert_eq!(on_ping(ProbeState::ProbingV3, false), (ProbeState::Unavailable, ProbeAction::GiveUp));
    assert_eq!(start_probe(Some(ApiVersion::V3)), (ProbeState::V3Active, ProbeAction::Connect(ApiVersion::V3)));
    let c = UnifiedClient::from_probe("https://example.com", ProbeState::V4Active).unwrap();
    assert!(c.is_v4());
    assert!(matches!(
        UnifiedClient::from_probe("https://example.com", ProbeState::Unavailable),
        Err(Error::InvalidResponse(_))
    ));
}

#[test]
fn identifier_resolution() {
    let list = listing(vec![object("X1", "a.txt", "file", 10), object("X2", "b", "dir", 0)]);
    let t = lookup_target("/a.txt").unwrap();
    assert_eq!(t.parent, "/");
    assert_eq!(t.name, "a.txt");
    let e = resolve_entry(&list, "/a.txt", t.name).unwrap();
    assert_eq!(e.id, "X1");
    assert!(!e.is_dir);
    let d = resolve_entry(&list, "/b", "b").unwrap();
    assert_eq!(d.id, "X2");
    assert!(d.is_dir);
    assert!(matches!(resolve_entry(&list, "/missing.txt", "missing.txt"), Err(Error::NotFound(_))));
    assert!(matches!(lookup_target("/"), Err(Error::InvalidArgument(_))));
    let r = rename_request(&e, "c.txt");
    assert_eq!(r.action, "rename");
    assert_eq!(r.src.items, vec!["X1"]);
    assert!(r.src.dirs.is_empty());
    match not_found_with_hint("/zz", "/", &list.objects) {
        Error::NotFound(m) => assert_eq!(m, "File not found: '/zz'. Did you mean:\n  - a.txt\nAvailable files in /: 1"),
        other => panic!("unexpected {:?}", other),
    }
}

#[test]
fn move_within_directory_is_rename() {
    match plan_move("/docs/a.txt", "/docs/b.txt").unwrap() {
        MovePlan::Rename { uri, new_name } => {
            assert_eq!(uri, "cloudreve://my/docs/a.txt");
            assert_eq!(new_name, "b.txt");
        }
        other => panic!("unexpected {:?}", other),
    }
    match plan_move("/docs/a.txt", "/archive/a.txt").unwrap() {
        MovePlan::Move { src_uri, dst_uri } => {
            assert_eq!(src_uri, "cloudreve://my/docs/a.txt");
            assert_eq!(dst_uri, "cloudreve://my/archive/a.txt");
        }
        other => panic!("unexpected {:?}", other),
    }
    assert!(matches!(plan_move("/", "/x"), Err(Error::InvalidArgument(_))));
    assert_eq!(plan_rename("/docs/a.txt").unwrap(), "cloudreve://my/docs/a.txt");
    assert!(plan_rename("/").is_err());
}

#[test]
fn copy_with_rename_sequence() {
    let plan = plan_copy("/docs/a.txt", "/docs/a_copy.txt", "42");
    assert!(plan.emulated);
    let s = &plan.steps;
    assert_eq!(s.len(), 8);
    assert!(matches!(&s[0], CopyStep::Probe { uri } if uri == "cloudreve://my/docs/a_copy.txt"));
    assert!(matches!(&s[1], CopyStep::Delete { uri } if uri == "cloudreve://my/docs/a_copy.txt"));
    assert!(matches!(&s[2], CopyStep::CreateDir { path } if path == "/docs/.temp_copy_42"));
    assert!(matches!(&s[3], CopyStep::Copy { src_uri, dst_uri }
        if src_uri == "cloudreve://my/docs/a.txt" && dst_uri == "cloudreve://my/docs/.temp_copy_42"));
    assert!(matches!(&s[4], CopyStep::Rename { uri, new_name }
        if uri == "cloudreve://my/docs/.temp_copy_42/a.txt" && new_name == "a.txt_copy"));
    assert!(matches!(&s[5], CopyStep::Move { src_uri, dst_uri }
        if src_uri == "cloudreve://my/docs/.temp_copy_42/a.txt_copy" && dst_uri == "cloudreve://my/docs"));
    assert!(matches!(&s[6], CopyStep::Rename { uri, new_name }
        if uri == "cloudreve://my/docs/a.txt_copy" && new_name == "a_copy.txt"));
    assert!(matches!(&s[7], CopyStep::Delete { uri } if uri == "cloudreve://my/docs/.temp_copy_42"));
    assert_eq!(copy_next(true, 0, false), CopyControl::Run(2));
    assert_eq!(copy_next(true, 4, true), CopyControl::Run(5));
    assert_eq!(copy_next(true, 5, false), CopyControl::Abort);
    assert_eq!(copy_next(true, 7, false), CopyControl::Finish);

    let direct = plan_copy("/docs/a.txt", "/archive/a.txt", "42");
    assert!(!direct.emulated);
    assert_eq!(direct.steps.len(), 1);
    assert!(matches!(&direct.steps[0], CopyStep::Copy { src_uri, dst_uri }
        if src_uri == "cloudreve://my/docs/a.txt" && dst_uri == "cloudreve://my/archive"));
}

#[test]
fn batch_delete_reports_missing_item() {
    let paths = ["/docs/a.txt", "/docs/missing.txt", "/docs/b.txt"];
    let groups = group_by_parent(&paths).unwrap();
    assert_eq!(groups.parents, vec!["/docs".to_string()]);
    assert_eq!(groups.group_of, vec![0, 0, 0]);
    let idx = members(&groups, 0);
    assert_eq!(idx, vec![0, 1, 2]);
    let names: Vec<&str> = idx.iter().map(|&i| leaf_name(paths[i])).collect();
    let list = listing(vec![object("A", "a.txt", "file", 1), object("B", "b.txt", "file", 2)]);
    let res = resolve_group(&list, &names);
    assert_eq!(res.found, vec![0, 2]);
    assert_eq!(res.missing, vec![1]);
    let req = group_delete_request(&res);
    assert_eq!(req.items, vec!["A", "B"]);
    assert!(req.force && !req.unlink);
    assert_eq!(res.entries, vec![0, 1]);
    let group_paths: Vec<&str> = idx.iter().map(|&i| paths[i]).collect();
    let mut result = DeleteResult::empty();
    result.finish_group(&group_paths, &res, Some(Ok(())));
    assert_eq!(result.deleted, 2);
    assert_eq!(result.failed, 1);
    assert_eq!(result.errors, vec![("/docs/missing.txt".to_string(), "File not found".to_string())]);
    assert!(matches!(group_by_parent(&["/a", "/"]), Err(Error::InvalidArgument(_))));
}

#[test]
fn single_deletes_are_reported_one_by_one() {
    let mut r = DeleteResult::empty();
    r.record_single("/a", Ok(0));
    r.record_single("/b", Ok(40004));
    r.record_single("/c", Err("connection reset".to_string()));
    assert_eq!(r.deleted, 1);
    assert_eq!(r.failed, 2);
    assert_eq!(r.errors[0], ("/b".to_string(), "API error code: 40004".to_string()));
    assert_eq!(r.errors[1], ("/c".to_string(), "connection reset".to_string()));
    let mut all = DeleteResult::empty();
    all.record_all_failed(&["/x", "/y"], "listing failed");
    assert_eq!(all.failed, 2);
    assert_eq!(all.errors[1].0, "/y");
}

#[test]
fn pagination_mode_branching() {
    let token = Some("T1".to_string());
    match next_page_step(true, 0, 2, &token) {
        PageStep::Fetch { page, token } => {
            assert_eq!(page, 1);
            assert_eq!(token.as_deref(), Some("T1"));
        }
        other => panic!("unexpected {:?}", other),
    }
    match next_page_step(false, 0, 2, &token) {
        PageStep::Fetch { page, token } => {
            assert_eq!(page, 2);
            assert!(token.is_none());
        }
        other => panic!("unexpected {:?}", other),
    }
    assert!(matches!(next_page_step(true, 2, 2, &None), PageStep::Done));
    assert!(matches!(next_page_step(true, 1, 3, &Some(String::new())), PageStep::Missing { target: 3, available: 2 }));
    match page_missing_error(3, 2) {
        Error::InvalidResponse(m) => assert_eq!(m, "Page 3 does not exist (only 2 pages available)"),
        other => panic!("unexpected {:?}", other),
    }
}

#[test]
fn full_listing_keeps_first_parent() {
    let mut acc = ListAccumulator::new();
    let t = acc.absorb(page("root", vec![v4_file("a", FileType::File, 1), v4_file("b", FileType::Folder, 0)], Some("T1"), Some(policy("p1"))));
    assert_eq!(t.as_deref(), Some("T1"));
    let t = acc.absorb(page("other", vec![v4_file("c", FileType::File, 3)], None, Some(policy("p2"))));
    assert!(t.is_none());
    let all = FileListAll::V4(Box::new(acc.finish(500).unwrap()));
    assert_eq!(all.parent_name(), "root");
    assert_eq!(all.storage_policy_id().as_deref(), Some("p1"));
    assert_eq!(all.total_count(), 3);
    let names: Vec<String> = all.items().into_iter().map(|i| i.name).collect();
    assert_eq!(names, vec!["a", "b", "c"]);
    assert!(ListAccumulator::new().finish(10).is_none());
}

#[test]
fn envelope_decoding() {
    match check_response(404, None, "  <html>Not Found</html>\n", true) {
        Err(Error::Api { code, message }) => {
            assert_eq!(code, 404);
            assert_eq!(message, "<html>Not Found</html>");
        }
        other => panic!("unexpected {:?}", other),
    }
    let head = EnvelopeHead { code: 40004, msg: "not found".to_string(), has_data: false };
    match check_response(200, Some(head), "{}", true) {
        Err(Error::Api { code, message }) => {
            assert_eq!(code, 40004);
            assert_eq!(message, "not found");
        }
        other => panic!("unexpected {:?}", other),
    }
    let ok = EnvelopeHead { code: 0, msg: String::new(), has_data: false };
    assert!(matches!(check_response(200, Some(ok.clone()), "{}", true), Err(Error::InvalidResponse(_))));
    assert!(check_response(200, Some(ok), "{}", false).is_ok());
    assert!(matches!(check_response(200, None, "oops", true), Err(Error::Json(_))));
}

#[test]
fn version_names() {
    assert_eq!(ApiVersion::V3.as_str(), "v3");
    assert_eq!(ApiVersion::from_str_inner("V4"), Some(ApiVersion::V4));
    assert_eq!(ApiVersion::from_str_inner("3"), Some(ApiVersion::V3));
    assert_eq!(ApiVersion::from_str_inner("v5"), None);
    assert_eq!(ApiVersion::from_lowercase("V3"), None);
    assert_eq!("v4".parse::<ApiVersion>(), Ok(ApiVersion::V4));
    assert!("x".parse::<ApiVersion>().is_err());
    assert_eq!(SiteConfigSection::Explorer.as_str(), "explorer");
}

#[test]
fn model_helpers() {
    assert_eq!(FileType::from_code(1), Some(FileType::Folder));
    assert_eq!(FileType::from_code(2), None);
    assert_eq!(ShareSourceType::from_code(0), Some(ShareSourceType::File));
    let mut s = UploadSessionResponse {
        session_id: "s".to_string(),
        upload_id: None,
        chunk_size: 3,
        expires: 0,
        upload_urls: None,
        credential: None,
        complete_url: None,
        storage_policy: policy("p"),
        mime_type: None,
        upload_policy: None,
    };
    assert_eq!(s.total_chunks(10), 4);
    assert_eq!(s.total_chunks(9), 3);
    assert_eq!(s.total_chunks(0), 0);
    s.chunk_size = 0;
    assert_eq!(s.total_chunks(10), 1);
}

#[test]
fn paths_and_endpoints() {
    assert_eq!(normalize_path("/docs/"), "/docs");
    assert_eq!(normalize_path("/"), "/");
    assert_eq!(parent_dir("/docs/a.txt"), "/docs");
    assert_eq!(parent_dir("/a.txt"), "/");
    assert_eq!(parent_dir("a.txt"), "/");
    assert_eq!(leaf_name("/docs/a.txt"), "a.txt");
    assert_eq!(join("/docs//", "x"), "/docs/x");
    let c = ApiV3Client::new("https://example.com/");
    assert_eq!(c.get_url("/user/session"), "https://example.com/api/v3/user/session");
    let v4 = ApiV4Client::new("https://example.com");
    assert_eq!(v4.get_url("file"), "https://example.com/api/v4/file");
    assert_eq!(list_directory_endpoint("/my docs/"), "/directory%2Fmy%20docs");
}

#[test]
fn facade_credentials() {
    let mut api = CloudreveAPI::with_version("https://example.com/", ApiVersion::V4).unwrap();
    assert_eq!(api.base_url(), "https://example.com");
    assert_eq!(api.api_version(), ApiVersion::V4);
    assert!(matches!(api.get_token(), Err(Error::InvalidResponse(_))));
    api.set_token("abc").unwrap();
    match api.get_token().unwrap() {
        TokenInfo::V4Jwt(t) => assert_eq!(t, "abc"),
        other => panic!("unexpected {:?}", other),
    }
    assert!(api.get_session_cookie().is_none());
    assert!(api.require_current_protocol("restore").is_ok());
    let mut v3 = CloudreveAPI::with_version("https://example.com", ApiVersion::V3).unwrap();
    v3.set_token("cookie").unwrap();
    assert_eq!(v3.get_session_cookie().as_deref(), Some("cookie"));
    assert!(matches!(v3.require_current_protocol("restore"), Err(Error::UnsupportedFeature(_, _))));
    let t = TokenInfo::from_string("x".to_string(), true);
    assert!(t.is_v3() && !t.is_v4());
    assert_eq!(t.as_str(), "x");
    assert!(matches!(DeleteTarget::from("cloudreve://my/a".to_string()), DeleteTarget::Uri(_)));
    assert!(matches!(DeleteTarget::from("/a".to_string()), DeleteTarget::Path(_)));
}

#[test]
fn listings_and_file_info() {
    let list = FileList::V3(listing(vec![object("1", "d", "dir", 0), object("2", "f", "file", 5)]));
    let items = list.items();
    assert!(items[0].is_folder && !items[1].is_folder);
    assert_eq!(list.total_count(), 2);
    assert!(!list.has_more_pages());
    assert_eq!(list.parent_id(), "9zh3");
    let v4 = FileList::V4(Box::new(page("root", vec![v4_file("x", FileType::Folder, 0)], Some("n"), None)));
    assert!(v4.has_more_pages());
    assert_eq!(v4.total_items(), Some(3));
    assert!(v4.items()[0].is_folder);
    assert_eq!(v4.storage_policy_name(), None);

    let (dir, name) = file_info_lookup("/f/");
    assert_eq!((dir, name), ("/", "f"));
    assert_eq!(file_info_lookup("/"), ("/", ""));
    let l = listing(vec![object("2", "f", "file", 5)]);
    let info = file_info_from_listing(&l, "/f", name).unwrap();
    assert_eq!(info.size(), 5);
    assert_eq!(info.updated_at(), "2024-05-01");
    assert!(!info.is_folder());
    assert!(matches!(file_info_from_listing(&l, "/g", "g"), Err(Error::NotFound(_))));
    let v4info = FileInfo::V4(v4_file("y", FileType::File, 7));
    assert_eq!(v4info.path(), "cloudreve://my/y");
}

#[test]
fn transfers() {
    assert_eq!(upload_target("/docs/a.txt"), ("/docs", "a.txt"));
    let req = upload_request("/docs", "a.txt", "p1", 12);
    assert_eq!(req.size, 12);
    assert_eq!(req.policy_id, "p1");
    assert_eq!(upload_policy(None, None), "default");
    assert_eq!(upload_policy(None, Some("p2")), "p2");
    assert_eq!(upload_policy(Some("p3"), Some("p2")), "p3");
    assert_eq!(download_url("https://example.com/", "/api/v3/file/download/x"), "https://example.com/api/v3/file/download/x");
    let none = DownloadUrlResponse { urls: vec![], expires: String::new() };
    assert!(matches!(first_download_url(&none), Err(Error::InvalidResponse(_))));
    let some = DownloadUrlResponse {
        urls: vec![DownloadUrlItem { url: "https://d/1".to_string(), stream_saver_display_name: None }],
        expires: String::new(),
    };
    assert_eq!(first_download_url(&some).unwrap(), "https://d/1");
}

#[test]
fn accounts_shares_and_quota() {
    let r = share_request("/docs/", Some(3600), None);
    assert!(r.is_dir && r.preview);
    assert_eq!(r.expire, 3600);
    assert_eq!(r.password, "");
    let link = share_link_request("cloudreve://my/a", None, Some("pw"));
    assert_eq!(link.is_private, Some(true));
    assert_eq!(link.permissions.everyone, "read");
    assert_eq!(link.permissions.user_explicit, serde_json::Value::Object(serde_json::Map::new()));
    let acc = V4DavAccount {
        id: "7".to_string(),
        created_at: "c".to_string(),
        name: "n".to_string(),
        uri: "cloudreve://my/".to_string(),
        password: "p".to_string(),
        options: String::new(),
    };
    let upd = dav_update_request(&vec![acc], "7", None, Some("m"), Some(true), None).unwrap();
    assert_eq!(upd.uri, "cloudreve://my/");
    assert_eq!(upd.name, "m");
    assert!(matches!(dav_update_request(&vec![], "7", None, None, None, None), Err(Error::InvalidResponse(_))));
    let v3acc = WebdavAccount { id: 12, name: "w".to_string(), uri: "/".to_string(), password: "x".to_string(), created_at: "t".to_string() };
    assert_eq!(dav_account_from_v3(&v3acc).id, "12");
    let q = quota_from_v3(&StorageInfo { used: 1597, free: 0, total: 1000 });
    assert_eq!(q.free, 0);
    let q4 = quota_from_v4(&Quota { used: 10, total: 25, storage_pack_total: None });
    assert_eq!(q4.free, 15);
    let cfg_user = User {
        id: "u".to_string(),
        user_name: "a@b".to_string(),
        nickname: "n".to_string(),
        status: 3,
        avatar: String::new(),
        created_at: String::new(),
        preferred_theme: String::new(),
        anonymous: false,
        group: UserGroup {
            id: 1,
            name: "Admin".to_string(),
            allow_share: true,
            allow_remote_download: true,
            allow_archive_download: true,
            share_download: true,
            compress: true,
            webdav: true,
            source_batch: 0,
            advance_delete: true,
            allow_web_dav_proxy: false,
        },
        tags: vec![],
    };
    let mut cfg = SiteConfig {
        title: String::new(),
        login_captcha: false,
        reg_captcha: false,
        forget_captcha: false,
        email_active: false,
        themes: String::new(),
        default_theme: String::new(),
        home_view_method: String::new(),
        share_view_method: String::new(),
        authn: false,
        user: Some(cfg_user),
        captcha_recaptcha_key: String::new(),
        captcha_type: String::new(),
        tcaptcha_captcha_app_id: String::new(),
        register_enabled: false,
        app_promotion: false,
        wopi_exts: None,
    };
    let info = user_info_from_site_config(&cfg).unwrap();
    assert_eq!(info.status.as_deref(), Some("3"));
    assert_eq!(info.group.as_deref(), Some("Admin"));
    cfg.user = None;
    assert!(user_info_from_site_config(&cfg).is_err());
}

#[test]
fn section_names_and_messages() {
    assert_eq!(SiteConfigSection::from_name(Some("thumb")), SiteConfigSection::Thumb);
    assert_eq!(SiteConfigSection::from_name(Some("nope")), SiteConfigSection::Basic);
    assert_eq!(SiteConfigSection::from_name(None), SiteConfigSection::Basic);
    let list = listing(vec![]);
    match resolve_entry(&list, "/docs/x", "x") {
        Err(Error::NotFound(m)) => assert_eq!(m, "File not found: /docs/x"),
        other => panic!("unexpected {:?}", other),
    }
    assert_eq!(cloudreve_api::cloudreve_api::account::share_key_from_url(" https://example.com/s/abc123 \n"), "abc123");
}

#[test]
fn group_delete_failure_and_first_entries() {
    let list = listing(vec![
        object("A1", "a.txt", "file", 1),
        object("A2", "a.txt", "file", 1),
        object("D", "d", "dir", 0),
        object("Z", "z.txt", "file", 1),
    ]);
    let res = resolve_group(&list, &["d", "nope", "a.txt"]);
    assert_eq!(res.found, vec![0, 2]);
    assert_eq!(res.entries, vec![2, 0]);
    assert_eq!(res.file_ids, vec!["A1".to_string()]);
    assert_eq!(res.folder_ids, vec!["D".to_string()]);
    let group_paths = ["/g/d", "/g/nope", "/g/a.txt"];
    let mut r = DeleteResult::empty();
    r.finish_group(&group_paths, &res, Some(Err("boom".to_string())));
    assert_eq!(r.deleted, 0);
    assert_eq!(r.failed, 3);
    assert_eq!(r.errors[0], ("/g/nope".to_string(), "File not found".to_string()));
    assert_eq!(r.errors[1], ("/g/d".to_string(), "boom".to_string()));
    assert_eq!(r.errors[2], ("/g/a.txt".to_string(), "boom".to_string()));
    let none = resolve_group(&list, &["x"]);
    let mut r2 = DeleteResult::empty();
    r2.finish_group(&["/g/x"], &none, None);
    assert_eq!((r2.deleted, r2.failed), (0, 1));
}

#[test]
fn trimmed_base_urls_and_fresh_clients() {
    let c = UnifiedClient::with_version("https://h.example//", ApiVersion::V3);
    assert_eq!(c.base_url(), "https://h.example");
    assert!(c.as_v3().unwrap().session_cookie.is_none());
    match UnifiedClient::from_probe("h/", ProbeState::Unavailable) {
        Err(Error::InvalidResponse(m)) => {
            assert_eq!(m, "Could not detect API version. Neither V3 nor V4 endpoints responded.")
        }
        other => panic!("unexpected {:?}", other),
    }
    let api = CloudreveAPI::from_probe("https://h.example/", ProbeState::V3Active).unwrap();
    assert_eq!(api.inner().base_url(), "https://h.example");
    assert!(api.get_token().is_err());
    assert!(api.require_legacy_protocol("preview").is_ok());
    assert!(cloudreve_api::cloudreve_api::plan::plan_delete("/").is_err());
    assert_eq!(cloudreve_api::cloudreve_api::plan::plan_delete("/a").unwrap(), "cloudreve://my/a");
}

#[test]
fn share_replies_and_lists() {
    let head = ShareReplyHead { code: 0, msg: String::new(), key: Some("k1".to_string()) };
    assert_eq!(share_key_from_reply(200, Some(head), "{}").unwrap(), "k1");
    let bad = ShareReplyHead { code: 40001, msg: "denied".to_string(), key: None };
    assert!(matches!(share_key_from_reply(200, Some(bad), "{}"), Err(Error::Api { code: 40001, .. })));
    assert_eq!(share_key_from_reply(200, None, "https://x/s/abc\n").unwrap(), "abc");
    assert!(matches!(share_key_from_reply(500, None, " oops "), Err(Error::Api { code: 500, .. })));
    let acc = V4DavAccount {
        id: "7".to_string(),
        created_at: "c".to_string(),
        name: "n".to_string(),
        uri: "u".to_string(),
        password: "p".to_string(),
        options: String::new(),
    };
    let l = dav_list_from_v4(&vec![acc]);
    assert_eq!(l.accounts[0].password.as_deref(), Some("p"));
    assert_eq!(l.accounts[0].created_at, "c");
    let mut r = DeleteResult::empty();
    r.record_single("/n", Ok(-12));
    assert_eq!(r.errors[0].1, "API error code: -12");
}
