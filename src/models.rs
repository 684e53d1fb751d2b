//! Request and response shapes of the HTTP interface.
use vstd::prelude::*;

verus! {

/// Largest upload accepted when nothing else is configured, in bytes.
pub const DEFAULT_MAX_FILE_SIZE_BYTES: i32 = 100 * 1000 * 1024;

/// The headers naming the target tenant.
#[derive(Debug)]
pub struct TenantParams {
    /// Identifier of the tenant.
    pub tenant_id: String,
    /// Environment of the tenant.
    pub tenant_env: String,
}

/// The optional headers naming the user a request acts for.
#[derive(Debug)]
pub struct UserParams {
    pub user_id: Option<String>,
    pub user_name: Option<String>,
    pub user_image_id: Option<String>,
}

/// Counts over a whole tenant.
#[derive(Debug, PartialEq, Eq, Structural)]
pub struct TenantStatsResponse {
    pub total_files: i64,
    pub total_links: i64,
    pub total_folders: i64,
    /// Total size of all files, in bytes.
    pub file_size: i64,
}

/// Counts over one document box.
#[derive(Debug, PartialEq, Eq, Structural)]
pub struct DocumentBoxStats {
    pub total_files: i64,
    pub total_links: i64,
    pub total_folders: i64,
    /// Total size of the files, in bytes.
    pub file_size: i64,
}

/// Settings a client may read.
#[derive(Debug, PartialEq, Eq, Structural)]
pub struct DocumentBoxOptions {
    /// Largest upload accepted, in bytes.
    pub max_file_size: i32,
}

/// Metadata of a linked website.
#[derive(Debug)]
pub struct LinkMetadataResponse {
    pub title: Option<String>,
    pub og_title: Option<String>,
    pub og_description: Option<String>,
    pub favicon: bool,
    pub image: bool,
}

/// Query of a raw file download.
#[derive(Debug, Default, PartialEq, Eq, Structural)]
pub struct RawFileQuery {
    /// Serve as an attachment rather than inline.
    pub download: bool,
}

/// Request for a presigned download.
#[derive(Debug, PartialEq, Eq, Structural)]
pub struct GetPresignedRequest {
    /// Validity of the download, in seconds.
    pub expires_at: Option<i64>,
}

impl GetPresignedRequest {
    /// Validity of the download in seconds: 900 unless the request says.
    pub fn expires_in(&self) -> (r: i64)
        ensures
            r == (match self.expires_at {
                Some(e) => e,
                None => 900,
            }),
    {
        match self.expires_at {
            Some(e) => e,
            None => 900,
        }
    }
}

/// Details of the running server.
#[derive(Debug)]
pub struct DocboxServerResponse {
    pub version: String,
}

} // verus!
