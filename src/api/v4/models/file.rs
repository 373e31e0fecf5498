//! File-related models for Cloudreve API v4
use vstd::prelude::*;

use super::dav::{Pagination};
use super::storage::{StoragePolicy};

verus! {

/// File or folder metadata
#[derive(Debug, Clone)]
pub struct File {
    pub kind: FileType,
    pub id: String,
    pub name: String,
    pub permission: Option<String>,
    pub created_at: String,
    pub updated_at: String,
    pub size: i64,
    pub metadata: Option<serde_json::Value>,
    pub path: String,
    pub capability: Option<String>,
    pub owned: bool,
    pub primary_entity: Option<String>,
}

/// File type enum
#[derive(Debug, Clone, PartialEq, Eq, Structural)]
pub enum FileType {
    File,
    Folder,
}

/// File statistics
#[derive(Debug)]
pub struct FileStat {
    pub size: u64,
    pub created_at: String,
    pub updated_at: String,
    pub mime_type: String,
}

/// Directory list response
#[derive(Debug)]
pub struct ListResponse {
    pub files: Vec<File>,
    pub parent: File,
    pub pagination: PaginationResults,
    pub props: NavigatorProps,
    pub context_hint: String,
    pub mixed_type: bool,
    pub storage_policy: Option<StoragePolicy>,
    pub view: Option<ExplorerView>,
}

/// Pagination metadata
#[derive(Debug, Clone)]
pub struct PaginationResults {
    pub page: i32,
    pub page_size: i32,
    pub total_items: Option<i64>,
    pub next_token: Option<String>,
    pub is_cursor: bool,
}

/// Navigator capabilities
#[derive(Debug, Clone)]
pub struct NavigatorProps {
    pub capability: String,
    pub max_page_size: i32,
    pub order_by_options: Vec<String>,
    pub order_direction_options: Vec<String>,
}

/// Explorer view settings
#[derive(Debug, Clone)]
pub struct ExplorerView {
    pub page_size: Option<i32>,
    pub order: Option<String>,
    pub order_direction: Option<OrderDirection>,
    pub view: Option<ExplorerViewMode>,
    pub thumbnail: Option<bool>,
    pub gallery_width: Option<i32>,
    pub columns: Option<Vec<ListViewColumn>>,
}

/// Sort direction enum
#[derive(Debug, Clone)]
pub enum OrderDirection {
    Asc,
    Desc,
}

/// View mode enum
#[derive(Debug, Clone)]
pub enum ExplorerViewMode {
    List,
    Grid,
    Gallery,
}

/// List view column configuration
#[derive(Debug, Clone)]
pub struct ListViewColumn {
    pub kind: i32,
    pub width: Option<i32>,
    pub props: Option<ColumnProps>,
}

/// Column properties
#[derive(Debug, Clone)]
pub struct ColumnProps {
    pub metadata_key: Option<String>,
}

/// Folder summary
#[derive(Debug, Clone)]
pub struct FolderSummary {
    pub size: i64,
    pub files: i64,
    pub folders: i64,
    pub completed: bool,
    pub calculated_at: String,
}

/// Permission settings
#[derive(Debug, Clone)]
pub struct PermissionSetting {
    pub user_explicit: serde_json::Value,
    pub group_explicit: serde_json::Value,
    pub same_group: String,
    pub other: String,
    pub anonymous: String,
    pub everyone: String,
}


impl FileType {
    /// The kind that the server's numeric code denotes: 0 a file, 1 a folder.
    pub fn from_code(code: i64) -> (r: Option<FileType>)
        ensures
            code == 0 ==> r == Some(FileType::File),
            code == 1 ==> r == Some(FileType::Folder),
            code != 0 && code != 1 ==> r is None,
    {
        if code == 0 {
            Some(FileType::File)
        } else if code == 1 {
            Some(FileType::Folder)
        } else {
            None
        }
    }
}

} // verus!
