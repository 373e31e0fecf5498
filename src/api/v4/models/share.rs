//! Share-related models for Cloudreve API v4
use vstd::prelude::*;

use super::auth::{NewUser};
use super::file::{File, PermissionSetting};

verus! {

/// Share link information
#[derive(Debug, Clone)]
pub struct ShareLink {
    pub id: String,
    pub name: String,
    pub visited: i64,
    pub downloaded: i64,
    pub price: i64,
    pub unlocked: bool,
    pub source_type: ShareSourceType,
    pub owner: NewUser,
    pub created_at: String,
    pub expired: bool,
    pub url: String,
    pub permission_setting: Option<PermissionSetting>,
    pub is_private: Option<bool>,
    pub password: Option<String>,
    pub source_uri: Option<String>,
    pub share_view: Option<bool>,
    pub show_readme: Option<bool>,
    pub password_protected: Option<bool>,
    pub expires: Option<String>,
    pub expired_at: Option<String>,
    pub download_count: u64,
}

/// Share source type enum
#[derive(Debug, Clone, PartialEq, Eq, Structural)]
pub enum ShareSourceType {
    File,
    Folder,
}

/// Create share link request
#[derive(Debug)]
pub struct CreateShareLinkRequest {
    pub permissions: PermissionSetting,
    pub uri: String,
    pub is_private: Option<bool>,
    pub share_view: Option<bool>,
    pub expire: Option<u32>,
    pub price: Option<i32>,
    pub password: Option<String>,
    pub show_readme: Option<bool>,
}

/// Edit share link request
#[derive(Debug)]
pub struct EditShareLinkRequest {
    pub permissions: PermissionSetting,
    pub uri: String,
    pub share_view: Option<bool>,
    pub expire: Option<u32>,
    pub price: Option<i32>,
    pub show_readme: Option<bool>,
}

/// Abuse report request
#[derive(Debug)]
pub struct AbuseReportRequest<'a> {
    pub reason: &'a str,
}


impl ShareSourceType {
    /// The kind that the server's numeric code denotes: 0 a file, 1 a folder.
    pub fn from_code(code: i64) -> (r: Option<ShareSourceType>)
        ensures
            code == 0 ==> r == Some(ShareSourceType::File),
            code == 1 ==> r == Some(ShareSourceType::Folder),
            code != 0 && code != 1 ==> r is None,
    {
        if code == 0 {
            Some(ShareSourceType::File)
        } else if code == 1 {
            Some(ShareSourceType::Folder)
        } else {
            None
        }
    }
}

} // verus!
