//! User management models for Cloudreve API v4
use vstd::prelude::*;

use super::auth::{User};
use super::file::{File};

verus! {

/// Storage quota information
#[derive(Debug)]
pub struct Quota {
    pub used: u64,
    pub total: u64,
    pub storage_pack_total: Option<u64>,
}

/// User settings (preferences)
#[derive(Debug, Default)]
pub struct UserSettings {
    /// Group expiration date
    pub group_expires: Option<String>,

    /// Linked OpenID providers
    pub open_id: Option<Vec<OpenIDInfo>>,

    /// Whether file version retention is enabled
    pub version_retention_enabled: bool,

    /// File extensions with version retention enabled
    pub version_retention_ext: Option<Vec<String>>,

    /// Max preserved versions (0 = all)
    pub version_retention_max: Option<i64>,

    /// Whether account is passwordless
    pub passwordless: bool,

    /// Whether 2FA is enabled
    pub two_fa_enabled: bool,

    /// Registered passkeys
    pub passkeys: Option<Vec<Passkey>>,

    /// Recent login activities
    pub login_activity: Option<Vec<LoginActivity>>,

    /// Storage packs
    pub storage_packs: Vec<StoragePack>,

    /// Available credit/points
    pub credit: i64,

    /// Whether view sync is disabled
    pub disable_view_sync: bool,

    /// Share link visibility in profile
    pub share_links_in_profile: Option<String>,
}

/// OpenID provider information
#[derive(Debug, Default)]
pub struct OpenIDInfo {
    pub provider: i32,
    pub linked_at: String,
}

/// Passkey information
#[derive(Debug, Default)]
pub struct Passkey {
    pub id: String,
    pub name: String,
    pub used_at: Option<String>,
    pub created_at: String,
}

/// Login activity record
#[derive(Debug, Default)]
pub struct LoginActivity {
    pub created_at: String,
    pub ip: String,
    pub browser: String,
    pub device: String,
    pub os: String,
    pub login_with: String,
    pub open_id_provider: i32,
    pub success: bool,
    pub webdav: bool,
}

/// Storage pack information
#[derive(Debug, Default)]
pub struct StoragePack {
    pub name: String,
    pub active_since: String,
    pub expire_at: String,
    pub size: i64,
}

/// Update profile request
#[derive(Debug)]
pub struct UpdateProfileRequest<'a> {
    pub nickname: Option<&'a str>,
    pub email: Option<&'a str>,
    pub avatar: Option<&'a str>,
}

/// Change password request
#[derive(Debug)]
pub struct ChangePasswordRequest<'a> {
    pub old_password: &'a str,
    pub new_password: &'a str,
}

/// Search user request
#[derive(Debug)]
pub struct SearchUserRequest<'a> {
    pub query: &'a str,
    pub page: Option<u32>,
    pub page_size: Option<u32>,
}

/// Update user setting request
#[derive(Debug)]
pub struct UpdateUserSettingRequest<'a> {
    pub key: &'a str,
    pub value: &'a str,
}

/// Credit change record
#[derive(Debug)]
pub struct CreditChangeRecord {
    pub id: String,
    pub amount: i64,
    pub reason: String,
    pub created_at: String,
}

} // verus!
