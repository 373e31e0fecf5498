//! Data models of the current protocol, grouped by domain.
pub mod auth;
pub mod common;
pub mod dav;
pub mod file;
pub mod request;
pub mod response;
pub mod share;
pub mod site;
pub mod storage;
pub mod task;
pub mod user;

pub use auth::{AvatarType, CaptchaResponse, LoginData, LoginPreparation, LoginRequest, LoginResponse, NewGroup, NewUser, OpenIdFinishRequest, OpenIdPrepareRequest, PasskeySignInPreparation, PasskeySignInRequest, RefreshTokenRequest, RegisterRequest, ShareLinkVisibility, Token, TwoFactorLoginRequest, TwoFactorSetup, TwoFactorVerify, User, UserGroup, UserStatus};
pub use common::{ApiResponse};
pub use dav::{CreateDavAccountRequest, DavAccount, DavAccountsResponse, Pagination};
pub use file::{ColumnProps, ExplorerView, ExplorerViewMode, File, FileStat, FileType, FolderSummary, ListResponse, ListViewColumn, NavigatorProps, OrderDirection, PaginationResults, PermissionSetting};
pub use request::{CreateRemoteDownloadRequest, CopyFileRequest, CreateDownloadRequest, CreateDownloadUrlRequest, CreateFileRequest, CreateUploadSessionRequest, CreateViewerSessionRequest, DeleteFileRequest, DeleteUploadSessionRequest, GetArchiveListRequest, GetFileInfoRequest, ImportRequest, ListFilesRequest, MountStoragePolicyRequest, MoveCopyFileRequest, MoveFileRequest, RelocateRequest, RenameFileRequest, RenameMultipleRequest, RestoreFileRequest, SelectDownloadFilesRequest, SetFilePermissionRequest, UpdateFileContentRequest, UpdateMetadataRequest, UpdateViewRequest, UploadRequest};
pub use response::{ArchiveFileItem, ArchiveListResponse, DownloadUrlItem, DownloadUrlResponse, UploadSessionResponse, ViewerSessionResponse};
pub use share::{AbuseReportRequest, CreateShareLinkRequest, EditShareLinkRequest, ShareLink, ShareSourceType};
pub use site::{CustomHTML, CustomNavItem, CustomProps, FileViewer, PaymentProvider, PaymentSetting, SiteConfigSection};
pub use storage::{EntityType, Node, StoragePolicy, StoragePolicyType};
pub use task::{ActivitiesPagination, Activity, CreateArchiveRequest, ExtractArchiveRequest, FileActivitiesResponse, ListTasksRequest, LogEntry, NewNode, NodeType, Progress, Task, TaskListResponse, TaskPagination, TaskResponse, TaskStatus, TaskSummary, TaskType};
pub use user::{ChangePasswordRequest, CreditChangeRecord, LoginActivity, OpenIDInfo, Passkey, Quota, SearchUserRequest, StoragePack, UpdateProfileRequest, UpdateUserSettingRequest, UserSettings};
