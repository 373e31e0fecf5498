use cloudreve_api::api::v4::uri::{is_valid_uri, path_to_uri, paths_to_uris, uri_to_path};

#[test]
fn test_path_to_uri_absolute() {
    assert_eq!(
        path_to_uri("/path/to/file.txt"),
        "cloudreve://my/path/to/file.txt"
    );
}

#[test]
fn test_path_to_uri_relative() {
    assert_eq!(
        path_to_uri("path/to/file.txt"),
        "cloudreve://my/path/to/file.txt"
    );
}

#[test]
fn test_path_to_uri_already_uri() {
    assert_eq!(
        path_to_uri("cloudreve://my/path/to/file.txt"),
        "cloudreve://my/path/to/file.txt"
    );
}

#[test]
fn test_path_to_uri_root() {
    assert_eq!(path_to_uri("/"), "cloudreve://my/");
}

#[test]
fn test_is_valid_uri() {
    assert!(is_valid_uri("cloudreve://my/path/to/file.txt"));
    assert!(is_valid_uri("cloudreve://my/"));
    assert!(!is_valid_uri("/path/to/file.txt"));
    assert!(!is_valid_uri("path/to/file.txt"));
    assert!(!is_valid_uri("cloudreve://"));
}

#[test]
fn test_uri_to_path() {
    assert_eq!(
        uri_to_path("cloudreve://my/path/to/file.txt").unwrap(),
        "/path/to/file.txt"
    );
    assert_eq!(uri_to_path("cloudreve://my/").unwrap(), "/");
}

#[test]
fn test_uri_to_path_invalid() {
    assert!(uri_to_path("/path/to/file.txt").is_err());
    assert!(uri_to_path("cloudreve://").is_err());
}

#[test]
fn test_paths_to_uris() {
    let paths = vec!["/file1.txt", "file2.txt", "cloudreve://my/file3.txt"];
    let uris = paths_to_uris(&paths);
    assert_eq!(
        uris,
        vec![
            "cloudreve://my/file1.txt",
            "cloudreve://my/file2.txt",
            "cloudreve://my/file3.txt"
        ]
    );
}
