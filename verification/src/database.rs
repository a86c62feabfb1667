//! The rows of the local cache, which mirrors what is published.

use vstd::prelude::*;

verus! {

/// A user as the cache holds them.
#[derive(Debug, Clone, PartialEq, Eq)]
pub struct User {
    pub id: i64,
    pub google_id: String,
    pub email: String,
    pub name: String,
    pub picture_url: Option<String>,
    pub s3_bucket: Option<String>,
    pub s3_region: Option<String>,
    pub s3_access_key: Option<String>,
    pub s3_secret_key: Option<String>,
    pub access_token: Option<String>,
    pub has_drive_access: i32,
    pub last_sync: Option<String>,
    pub created_at: String,
    pub last_login: String,
}

/// A published photo as the cache holds it.
#[derive(Debug, Clone, PartialEq, Eq)]
pub struct Photo {
    pub id: i64,
    pub user_id: i64,
    pub photo_id: String,
    pub original_name: String,
    pub upload_date: String,
    pub file_size: i64,
    pub thumbnail_url: String,
    pub small_url: String,
    pub medium_url: String,
    pub large_url: String,
    pub original_url: String,
    pub width: i32,
    pub height: i32,
    pub synced: i32,
    pub cache_timestamp: Option<String>,
}

} // verus!
