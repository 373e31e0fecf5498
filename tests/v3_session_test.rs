use cloudreve_api::api::v3::models::{LoginRequest, OtpLoginRequest};

#[test]
fn v3_session_test_test_login_request_struct() {
    let _login_request = LoginRequest {
        user_name: "user@example.com",
        password: "password",
        captcha_code: "",
    };
}

#[test]
fn test_otp_login_request_struct() {
    let _otp_request = OtpLoginRequest {
        code: "123456".to_string(),
    };
}
