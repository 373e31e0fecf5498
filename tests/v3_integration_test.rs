use cloudreve_api::api::v3::models::{
    Aria2CreateRequest, LoginRequest, OtpLoginRequest, ShareRequest, UploadFileRequest,
};

#[test]
fn test_all_request_structs() {
    let _login = LoginRequest {
        user_name: "user@example.com",
        password: "password",
        captcha_code: "",
    };

    let _otp = OtpLoginRequest {
        code: "123456".to_string(),
    };

    let _upload = UploadFileRequest {
        path: "/test",
        size: 1024,
        name: "file.txt",
        policy_id: "policy",
        last_modified: 1234567890,
        mime_type: "text/plain",
    };

    let _share = ShareRequest {
        id: "file123".to_string(),
        is_dir: false,
        password: "".to_string(),
        downloads: -1,
        expire: 86400,
        preview: true,
    };

    let _aria2 = Aria2CreateRequest {
        dst: "/downloads",
        url: vec!["https://example.com/file.zip"],
    };
}
