//! Request types for Cloudreve API v4
use vstd::prelude::*;

use super::file::{File};

verus! {

/// Upload file request
#[derive(Debug)]
pub struct UploadRequest<'a> {
    pub path: &'a str,
    pub name: Option<&'a str>,
    pub overwrite: Option<bool>,
}

/// List files request
#[derive(Debug, Default)]
pub struct ListFilesRequest<'a> {
    pub path: &'a str,
    pub page: Option<u32>,
    pub page_size: Option<u32>,
    pub order_by: Option<&'a str>,
    pub order_direction: Option<&'a str>,
    pub next_page_token: Option<&'a str>,
}

/// Move file request (also used for copy with copy=true)
#[derive(Debug)]
pub struct MoveFileRequest<'a> {
    pub uris: Vec<&'a str>,
    pub dst: &'a str,
    pub copy: Option<bool>,
}

/// Copy file request
#[derive(Debug)]
pub struct CopyFileRequest<'a> {
    pub uris: Vec<&'a str>,
    pub dst: &'a str,
}

/// Rename file request
#[derive(Debug)]
pub struct RenameFileRequest<'a> {
    pub uri: &'a str,
    pub new_name: &'a str,
}

/// Set file permission request
#[derive(Debug)]
pub struct SetFilePermissionRequest<'a> {
    /// File path (will be converted to URI format internally)
    ///
    /// Can be:
    /// - Absolute path: "/folder/file.txt"
    /// - Relative path: "folder/file.txt"
    /// - Already formatted URI: "cloudreve://my/folder/file.txt"
    pub uri: &'a str,
    pub user_explicit: Option<serde_json::Value>,
    pub group_explicit: Option<serde_json::Value>,
    pub same_group: Option<&'a str>,
    pub other: Option<&'a str>,
    pub anonymous: Option<&'a str>,
    pub everyone: Option<&'a str>,
}

/// Create upload session request
#[derive(Debug)]
pub struct CreateUploadSessionRequest<'a> {
    /// Target file path (will be converted to URI format internally)
    ///
    /// Can be:
    /// - Absolute path: "/folder/file.txt"
    /// - Relative path: "folder/file.txt"
    /// - Already formatted URI: "cloudreve://my/folder/file.txt"
    pub uri: &'a str,
    /// Size of the file in bytes
    pub size: u64,
    /// ID of the storage policy to use
    pub policy_id: &'a str,
    /// Optional Unix milliseconds timestamp of when the file is last modified
    pub last_modified: Option<u64>,
    /// Optional mime type of the file
    pub mime_type: Option<&'a str>,
    /// Optional key-value of file metadata
    pub metadata: Option<std::collections::HashMap<String, String>>,
    /// Optional blob type. "version" overwrites existing files.
    pub entity_type: Option<&'a str>,
}

/// Delete upload session request
#[derive(Debug)]
pub struct DeleteUploadSessionRequest<'a> {
    /// ID of the upload session
    pub id: &'a str,
    /// Target file path (will be converted to URI format internally)
    ///
    /// Can be:
    /// - Absolute path: "/folder/file.txt"
    /// - Relative path: "folder/file.txt"
    /// - Already formatted URI: "cloudreve://my/folder/file.txt"
    pub uri: &'a str,
}

/// Move/copy file request
#[derive(Debug)]
pub struct MoveCopyFileRequest<'a> {
    pub from: Vec<&'a str>,
    pub to: &'a str,
    pub copy: Option<bool>,
}

/// Update file content request
#[derive(Debug)]
pub struct UpdateFileContentRequest<'a> {
    /// File path (will be converted to URI format internally)
    ///
    /// Can be:
    /// - Absolute path: "/folder/file.txt"
    /// - Relative path: "folder/file.txt"
    /// - Already formatted URI: "cloudreve://my/folder/file.txt"
    pub uri: &'a str,
    pub content: &'a str,
}

/// Create viewer session request
#[derive(Debug)]
pub struct CreateViewerSessionRequest<'a> {
    /// File path (will be converted to URI format internally)
    ///
    /// Can be:
    /// - Absolute path: "/folder/file.txt"
    /// - Relative path: "folder/file.txt"
    /// - Already formatted URI: "cloudreve://my/folder/file.txt"
    pub uri: &'a str,
}

/// Create file request
#[derive(Debug)]
pub struct CreateFileRequest<'a> {
    pub path: &'a str,
    pub name: &'a str,
    pub content: Option<&'a str>,
    pub overwrite: Option<bool>,
}

/// Rename multiple request
#[derive(Debug)]
pub struct RenameMultipleRequest<'a> {
    pub uris: Vec<&'a str>,
    pub names: Vec<&'a str>,
}

/// Create download URL request
#[derive(Debug)]
pub struct CreateDownloadUrlRequest<'a> {
    /// List of file paths (will be converted to URI format internally)
    ///
    /// Each path can be:
    /// - Absolute path: "/folder/file.txt"
    /// - Relative path: "folder/file.txt"
    /// - Already formatted URI: "cloudreve://my/folder/file.txt"
    pub uris: Vec<&'a str>,
    pub download: Option<bool>,
    pub redirect: Option<bool>,
    pub entity: Option<&'a str>,
    pub use_primary_site_url: Option<bool>,
    pub skip_error: Option<bool>,
    pub archive: Option<bool>,
    pub no_cache: Option<bool>,
}

/// Restore file request
#[derive(Debug)]
pub struct RestoreFileRequest<'a> {
    /// List of file paths to restore (will be converted to URI format internally)
    ///
    /// Each path can be:
    /// - Absolute path: "/folder/file.txt"
    /// - Relative path: "folder/file.txt"
    /// - Already formatted URI: "cloudreve://my/folder/file.txt"
    pub uris: Vec<&'a str>,
}

/// Update metadata request
#[derive(Debug)]
pub struct UpdateMetadataRequest {
    pub metadata: Option<serde_json::Value>,
    pub clear_metadata: Option<bool>,
}

/// Mount storage policy request
#[derive(Debug)]
pub struct MountStoragePolicyRequest {
    pub policy_id: u64,
    pub inherit_to_children: Option<bool>,
}

/// Update view request
#[derive(Debug)]
pub struct UpdateViewRequest {
    pub page_size: Option<i32>,
    pub order: Option<String>,
    pub order_direction: Option<String>,
    pub view: Option<String>,
    pub thumbnail: Option<bool>,
    pub gallery_width: Option<i32>,
}

/// Get file info request
#[derive(Debug)]
pub struct GetFileInfoRequest<'a> {
    /// File path (will be converted to URI format internally)
    ///
    /// Can be:
    /// - Absolute path: "/folder/file.txt"
    /// - Relative path: "folder/file.txt"
    /// - Already formatted URI: "cloudreve://my/folder/file.txt"
    pub uri: &'a str,
    pub include_extended_info: Option<bool>,
}

/// Get archive list request
#[derive(Debug)]
pub struct GetArchiveListRequest<'a> {
    /// File path (will be converted to URI format internally)
    ///
    /// Can be:
    /// - Absolute path: "/folder/file.txt"
    /// - Relative path: "folder/file.txt"
    /// - Already formatted URI: "cloudreve://my/folder/file.txt"
    pub uri: &'a str,
}

/// Relocate request
#[derive(Debug)]
pub struct RelocateRequest<'a> {
    pub src: Vec<&'a str>,
    pub dst_policy_id: &'a str,
}

/// Import request
#[derive(Debug)]
pub struct ImportRequest<'a> {
    pub src: &'a str,
    pub dst: &'a str,
    pub user_id: &'a str,
    pub policy_id: i32,
    pub extract_media_meta: Option<bool>,
    pub recursive: Option<bool>,
}

/// Select download files request
#[derive(Debug)]
pub struct SelectDownloadFilesRequest<'a> {
    pub selected_files: Vec<&'a str>,
}

/// Delete file request
#[derive(Debug)]
pub struct DeleteFileRequest<'a> {
    /// List of file paths to delete (will be converted to URI format internally)
    ///
    /// Each path can be:
    /// - Absolute path: "/folder/file.txt"
    /// - Relative path: "folder/file.txt"
    /// - Already formatted URI: "cloudreve://my/folder/file.txt"
    pub uris: Vec<&'a str>,
    pub unlink: Option<bool>,
    pub skip_soft_delete: Option<bool>,
}

/// Create download request (alias for remote download)
#[derive(Debug)]
pub struct CreateDownloadRequest<'a> {
    pub dst: &'a str,
    pub src: Vec<&'a str>,
    pub preferred_node_id: Option<String>,
}

/// Request to download a remote URL into the user's files
#[derive(Debug)]
pub struct CreateRemoteDownloadRequest<'a> {
    pub url: &'a str,
    pub path: Option<&'a str>,
    pub node_id: Option<u64>,
}

} // verus!
