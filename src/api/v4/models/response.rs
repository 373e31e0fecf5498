//! Response types for Cloudreve API v4
use vstd::prelude::*;

use super::storage::{StoragePolicy};

verus! {

/// Upload session response
#[derive(Debug)]
pub struct UploadSessionResponse {
    pub session_id: String,
    pub upload_id: Option<String>,
    pub chunk_size: u64,
    pub expires: u64,
    pub upload_urls: Option<Vec<String>>,
    pub credential: Option<String>,
    pub complete_url: Option<String>,
    pub storage_policy: StoragePolicy,
    pub mime_type: Option<String>,
    pub upload_policy: Option<String>,
}

/// Download URL response
#[derive(Debug)]
pub struct DownloadUrlResponse {
    pub urls: Vec<DownloadUrlItem>,
    pub expires: String,
}

/// Download URL item
#[derive(Debug)]
pub struct DownloadUrlItem {
    pub url: String,
    pub stream_saver_display_name: Option<String>,
}

/// Archive list response
#[derive(Debug)]
pub struct ArchiveListResponse {
    pub files: Vec<ArchiveFileItem>,
}

/// Archive file item
#[derive(Debug)]
pub struct ArchiveFileItem {
    pub name: String,
    pub size: u64,
    pub kind: String,
    pub path: String,
}

/// Viewer session response
#[derive(Debug)]
pub struct ViewerSessionResponse {
    pub session_id: String,
}


/// The number of chunks of `chunk` bytes that hold `size` bytes; one when
/// the chunk size is zero.
pub open spec fn chunks_needed(size: nat, chunk: nat) -> nat {
    if chunk == 0 {
        1
    } else {
        ((size + chunk - 1) / chunk as int) as nat
    }
}

impl UploadSessionResponse {
    /// The number of chunks an upload of `file_size` bytes takes with this
    /// session's chunk size, truncated to 32 bits.
    pub fn total_chunks(&self, file_size: u64) -> (r: u32)
        ensures
            r == chunks_needed(file_size as nat, self.chunk_size as nat) as u32,
    {
        if self.chunk_size == 0 {
            return 1;
        }
        let q: u64 = file_size / self.chunk_size;
        if file_size % self.chunk_size != 0 {
            assert(q < u64::MAX) by (nonlinear_arith)
                requires
                    self.chunk_size >= 2,
                    q == file_size / self.chunk_size,
                    file_size <= u64::MAX,
            ;
        }
        let n: u64 = if file_size % self.chunk_size != 0 { q + 1 } else { q };
        proof {
            let s = file_size as int;
            let c = self.chunk_size as int;
            assert(s == c * (s / c) + s % c) by (nonlinear_arith) requires c > 0;
            assert((s + c - 1) / c == n as int) by (nonlinear_arith)
                requires c > 0, s == c * (s / c) + s % c, 0 <= s % c < c, q as int == s / c,
                    n as int == (if s % c != 0 { q as int + 1 } else { q as int }),
            ;
        }
        #[verifier::truncate]
        (n as u32)
    }
}

} // verus!
