//! Authentication and user-related models for Cloudreve API v4
use vstd::prelude::*;

use super::file::{File};
use super::user::{Passkey};

verus! {

/// User information
#[derive(Debug, Clone)]
pub struct User {
    pub id: String,
    pub email: String,
    pub nickname: String,
    pub status: Option<String>,
    pub avatar: Option<String>,
    pub created_at: String,
    pub group: Option<UserGroup>,
}

/// User group information
#[derive(Debug, Clone)]
pub struct UserGroup {
    pub id: String,
    pub name: String,
    pub permission: Option<String>,
    pub direct_link_batch_size: Option<u64>,
    pub trash_retention: Option<u64>,
}

/// JWT token information
#[derive(Debug, Clone)]
pub struct Token {
    pub access_token: String,
    pub refresh_token: String,
    pub access_expires: String,
    pub refresh_expires: String,
}

/// Login response containing user and token
#[derive(Debug)]
pub struct LoginData {
    pub user: User,
    pub token: Token,
}

/// Extended user information
#[derive(Debug, Clone)]
pub struct NewUser {
    pub id: String,
    pub email: Option<String>,
    pub nickname: Option<String>,
    pub created_at: String,
    pub anonymous: Option<bool>,
    pub group: Option<NewGroup>,
    pub status: Option<UserStatus>,
    pub avatar: Option<AvatarType>,
    pub preferred_theme: Option<String>,
    pub credit: Option<i64>,
    pub language: Option<String>,
    pub disable_view_sync: Option<String>,
    pub share_links_in_profile: Option<ShareLinkVisibility>,
}

/// Extended group information
#[derive(Debug, Clone)]
pub struct NewGroup {
    pub id: String,
    pub name: String,
    pub permission: String,
    pub direct_link_batch_size: i64,
    pub trash_retention: i64,
}

/// User status enum
#[derive(Debug, Clone)]
pub enum UserStatus {
    Active,
    Inactive,
    ManualBanned,
    SysBanned,
}

/// Avatar type enum
#[derive(Debug, Clone)]
pub enum AvatarType {
    File,
    Gravatar,
}

/// Share link visibility enum
#[derive(Debug, Clone)]
pub enum ShareLinkVisibility {
    Empty,
    AllShare,
    HideShare,
}

/// Login request
#[derive(Debug)]
pub struct LoginRequest<'a> {
    pub email: &'a str,
    pub password: &'a str,
}

/// Two-factor login request
#[derive(Debug)]
pub struct TwoFactorLoginRequest<'a> {
    pub email: &'a str,
    pub password: &'a str,
    pub code: &'a str,
    pub ticket: Option<&'a str>,
}

/// Token refresh request
#[derive(Debug)]
pub struct RefreshTokenRequest<'a> {
    pub refresh_token: &'a str,
}

/// Two-factor setup response
#[derive(Debug)]
pub struct TwoFactorSetup {
    pub secret: String,
    pub qr_code: String,
    pub recovery_codes: Vec<String>,
}

/// Two-factor verification request
#[derive(Debug)]
pub struct TwoFactorVerify {
    pub code: String,
}

/// CAPTCHA response
#[derive(Debug)]
pub struct CaptchaResponse {
    pub image: String,
    pub ticket: String,
}

/// Login preparation data
#[derive(Debug)]
pub struct LoginPreparation {
    pub webauthn_enabled: bool,
    pub sso_enabled: bool,
    pub password_enabled: bool,
    pub qq_enabled: bool,
}

/// OpenID preparation request
#[derive(Debug)]
pub struct OpenIdPrepareRequest<'a> {
    pub hint: Option<&'a str>,
    pub linking: Option<bool>,
    pub provider: i32,
}

/// OpenID finish request
#[derive(Debug)]
pub struct OpenIdFinishRequest<'a> {
    pub code: &'a str,
    pub session_id: &'a str,
    pub provider_id: i32,
}

/// Passkey sign-in preparation
#[derive(Debug)]
pub struct PasskeySignInPreparation {
    pub session_id: String,
    pub options: serde_json::Value,
}

/// Passkey sign-in request
#[derive(Debug)]
pub struct PasskeySignInRequest<'a> {
    pub response: &'a str,
    pub session_id: &'a str,
}

/// Complete login response
#[derive(Debug)]
pub struct LoginResponse {
    pub user: NewUser,
    pub token: Token,
}

/// Register request
#[derive(Debug)]
pub struct RegisterRequest<'a> {
    pub username: &'a str,
    pub password: &'a str,
    pub email: Option<&'a str>,
}

} // verus!
