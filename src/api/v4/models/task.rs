//! Task and workflow models for Cloudreve API v4
use vstd::prelude::*;

use super::auth::{NewUser};
use super::file::{File};
use super::storage::{Node};

verus! {

/// Basic task information
#[derive(Debug, Clone)]
pub struct Task {
    pub id: String,
    pub name: Option<String>,
    pub status: String,
    pub created_at: String,
    pub updated_at: String,
}

/// Detailed task information
#[derive(Debug, Clone)]
pub struct TaskResponse {
    pub created_at: String,
    pub updated_at: String,
    pub id: String,
    pub status: TaskStatus,
    pub kind: TaskType,
    pub summary: Option<TaskSummary>,
    pub duration: Option<i64>,
    pub resume_time: Option<i64>,
    pub error: Option<String>,
    pub error_history: Option<Vec<String>>,
    pub retry_count: Option<i32>,
    pub node: Option<NewNode>,
}

/// Task status enum
#[derive(Debug, Clone)]
pub enum TaskStatus {
    Queued,
    Processing,
    Suspending,
    Error,
    Canceled,
    Completed,
}

/// Task type enum
#[derive(Debug, Clone)]
pub enum TaskType {
    MediaMeta,
    EntityRecycleRoutine,
    ExplicitEntityRecycle,
    UploadSentinelCheck,
    CreateArchive,
    ExtractArchive,
    Relocate,
    RemoteDownload,
    Import,
}

/// Task summary
#[derive(Debug, Clone)]
pub struct TaskSummary {
    pub phase: Option<String>,
    pub props: serde_json::Value,
}

/// Node information
#[derive(Debug, Clone)]
pub struct NewNode {
    pub id: String,
    pub name: String,
    pub kind: NodeType,
    pub capabilities: String,
}

/// Node type enum
#[derive(Debug, Clone)]
pub enum NodeType {
    Master,
    Slave,
}

/// Task list response
#[derive(Debug, Clone)]
pub struct TaskListResponse {
    pub pagination: TaskPagination,
    pub tasks: Vec<TaskResponse>,
}

/// Task pagination metadata
#[derive(Debug, Clone)]
pub struct TaskPagination {
    pub page_size: i32,
    pub next_token: Option<String>,
    pub is_cursor: bool,
}

/// Upload progress
#[derive(Debug, Clone)]
pub struct Progress {
    pub total: Option<i64>,
    pub current: Option<i64>,
    pub identifier: Option<String>,
}

/// File activity
#[derive(Debug, Clone)]
pub struct Activity {
    pub id: String,
    pub content: LogEntry,
    pub created_at: String,
    pub user: Option<NewUser>,
    pub version_id: Option<String>,
}

/// Log entry
#[derive(Debug, Clone)]
pub struct LogEntry {
    pub kind: String,
    pub props: serde_json::Value,
}

/// File activities response
#[derive(Debug, Clone)]
pub struct FileActivitiesResponse {
    pub activities: Vec<Activity>,
    pub pagination: ActivitiesPagination,
}

/// Activities pagination metadata
#[derive(Debug, Clone)]
pub struct ActivitiesPagination {
    pub page: i32,
    pub page_size: i32,
    pub next_token: Option<String>,
    pub is_cursor: bool,
}

/// List tasks request
#[derive(Debug, Default)]
pub struct ListTasksRequest<'a> {
    pub page: Option<u32>,
    pub per_page: Option<u32>,
    pub status: Option<&'a str>,
    pub type_: Option<&'a str>,
}

/// Create archive request
#[derive(Debug)]
pub struct CreateArchiveRequest<'a> {
    pub src: Vec<&'a str>,
    pub dst: &'a str,
}

/// Extract archive request
#[derive(Debug)]
pub struct ExtractArchiveRequest<'a> {
    pub src: Vec<&'a str>,
    pub dst: &'a str,
}

} // verus!
