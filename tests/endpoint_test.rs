use cloudreve_api::api::v3::{object_property_endpoint, session_from_set_cookie};
use cloudreve_api::api::v4::models::ListFilesRequest;
use cloudreve_api::api::v4::{
    activities_endpoint, dav_list_endpoint, file_info_endpoint, list_files_endpoint, share_list_endpoint,
    thumbnail_endpoint,
};
use cloudreve_api::cloudreve_api::batch::delete_files_request;
use cloudreve_api::cloudreve_api::resolve::destination_unavailable;
use cloudreve_api::Error;

#[test]
fn session_cookie_is_read_from_its_part() {
    assert_eq!(
        session_from_set_cookie("cloudreve-session=abc123; Path=/; HttpOnly").as_deref(),
        Some("abc123")
    );
    assert_eq!(
        session_from_set_cookie("theme=dark;  cloudreve-session=xyz ; Path=/").as_deref(),
        Some("xyz")
    );
    assert_eq!(session_from_set_cookie("other=1; Path=/"), None);
    assert_eq!(session_from_set_cookie(""), None);
}

#[test]
fn object_property_query_string() {
    assert_eq!(object_property_endpoint("ab", None, None), "/object/property/ab");
    assert_eq!(object_property_endpoint("ab", Some(true), None), "/object/property/ab?is_folder=true");
    assert_eq!(object_property_endpoint("ab", None, Some(false)), "/object/property/ab?trace_root=false");
    assert_eq!(
        object_property_endpoint("ab", Some(false), Some(true)),
        "/object/property/ab?is_folder=false&trace_root=true"
    );
}

#[test]
fn list_files_query_string() {
    let req = ListFilesRequest {
        path: "/docs",
        page: Some(2),
        page_size: Some(100),
        order_by: None,
        order_direction: None,
        next_page_token: Some("T1"),
    };
    assert_eq!(
        list_files_endpoint(&req),
        "/file?uri=cloudreve://my/docs&page=2&page_size=100&next_page_token=T1"
    );
    let bare = ListFilesRequest {
        path: "cloudreve://my/x",
        page: None,
        page_size: None,
        order_by: Some("name"),
        order_direction: Some("asc"),
        next_page_token: None,
    };
    assert_eq!(list_files_endpoint(&bare), "/file?uri=cloudreve://my/x&order_by=name&order_direction=asc");
}

#[test]
fn share_list_query_string() {
    assert_eq!(share_list_endpoint(20, None, None, None), "/share?page_size=20");
    assert_eq!(
        share_list_endpoint(5, Some("created_at"), Some("desc"), Some("tok")),
        "/share?page_size=5&order_by=created_at&order_direction=desc&next_page_token=tok"
    );
}

#[test]
fn batch_request_and_destination_error() {
    let uris = vec!["cloudreve://my/a".to_string(), "cloudreve://my/b".to_string()];
    let r = delete_files_request(&uris);
    assert_eq!(r.uris, vec!["cloudreve://my/a", "cloudreve://my/b"]);
    assert!(r.unlink.is_none() && r.skip_soft_delete.is_none());
    match destination_unavailable("/nowhere", "API error") {
        Error::InvalidResponse(m) => assert!(m.starts_with("Destination directory '/nowhere'")),
        other => panic!("unexpected {:?}", other),
    }
}

#[test]
fn uri_addressed_query_strings() {
    assert_eq!(file_info_endpoint("/a.txt", None), "/file/info?uri=cloudreve://my/a.txt");
    assert_eq!(file_info_endpoint("a.txt", Some(false)), "/file/info?uri=cloudreve://my/a.txt&extended=false");
    assert_eq!(thumbnail_endpoint("/p.png", Some(64), None), "/file/thumb?uri=cloudreve://my/p.png&width=64");
    assert_eq!(
        activities_endpoint("/d", Some(1), Some(50)),
        "/file/activities?uri=cloudreve://my/d&page=1&page_size=50"
    );
    assert_eq!(dav_list_endpoint(100, None), "/devices/dav?page_size=100");
    assert_eq!(dav_list_endpoint(10, Some("t")), "/devices/dav?page_size=10&next_page_token=t");
}
