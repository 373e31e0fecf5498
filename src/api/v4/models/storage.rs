//! Storage policy and entity models for Cloudreve API v4
use vstd::prelude::*;


verus! {

/// Storage policy information
#[derive(Debug)]
pub struct StoragePolicy {
    pub id: String,
    pub name: String,
    pub type_: String,
    pub max_size: u64,
    pub allowed_suffix: Option<Vec<String>>,
    pub denied_suffix: Option<Vec<String>>,
    pub allowed_name_regexp: Option<String>,
    pub denied_name_regexp: Option<String>,
    pub relay: Option<bool>,
    pub weight: Option<u64>,
    pub children: Option<Vec<StoragePolicy>>,
    pub chunk_concurrency: Option<u32>,
}

/// Storage policy type enum
#[derive(Debug, Clone)]
pub enum StoragePolicyType {
    Local,
    Qiniu,
    Upyun,
    Oss,
    Cos,
    S3,
    Onedrive,
    Remote,
    Obs,
    LoadBalance,
    KS3,
}

/// Entity type enum
#[derive(Debug, Clone)]
pub enum EntityType {
    Primary,
    Secondary,
    Temporary,
}

/// Node information
#[derive(Debug)]
pub struct Node {
    pub id: u64,
    pub name: String,
    pub created_at: String,
}

} // verus!
