//! Client library for a remote file-storage service that speaks two
//! incompatible protocol versions, with a version-agnostic facade on top.
pub mod api;
pub mod client;
pub mod cloudreve_api;
pub mod envelope;
pub mod error;
pub mod text;

pub use api::v3::ApiV3Client;
pub use api::v4::ApiV4Client;
pub use api::{ApiVersion, VersionInfo};
pub use client::UnifiedClient;
pub use error::Error;
