//! The settings that are kept in the cloud between installations.

use crate::mint::current_timestamp;
use crate::models::S3Config;
use vstd::prelude::*;

verus! {

/// A store configuration as it is saved for other installations, with the
/// time at which it was saved.
#[derive(Debug, Clone, PartialEq, Eq)]
pub struct CloudConfig {
    pub bucket: String,
    pub region: String,
    pub access_key: String,
    pub secret_key: String,
    pub last_updated: String,
}

/// A saved configuration as contracts speak of it.
pub struct CloudConfigView {
    pub bucket: Seq<char>,
    pub region: Seq<char>,
    pub access_key: Seq<char>,
    pub secret_key: Seq<char>,
    pub last_updated: Seq<char>,
}

impl View for CloudConfig {
    type V = CloudConfigView;

    open spec fn view(&self) -> CloudConfigView {
        CloudConfigView {
            bucket: self.bucket@,
            region: self.region@,
            access_key: self.access_key@,
            secret_key: self.secret_key@,
            last_updated: self.last_updated@,
        }
    }
}

impl CloudConfig {
    /// The configuration `config` as saved at `last_updated`.
    pub fn dated(config: &S3Config, last_updated: String) -> (saved: CloudConfig)
        ensures
            saved@ == (CloudConfigView {
                bucket: config.bucket@,
                region: config.region@,
                access_key: config.access_key@,
                secret_key: config.secret_key@,
                last_updated: last_updated@,
            }),
    {
        CloudConfig {
            bucket: config.bucket.clone(),
            region: config.region.clone(),
            access_key: config.access_key.clone(),
            secret_key: config.secret_key.clone(),
            last_updated,
        }
    }

    /// The configuration `config` as saved now.
    pub fn snapshot(config: &S3Config) -> (saved: CloudConfig)
        ensures
            saved@ == (CloudConfigView {
                bucket: config.bucket@,
                region: config.region@,
                access_key: config.access_key@,
                secret_key: config.secret_key@,
                last_updated: saved.last_updated@,
            }),
    {
        CloudConfig::dated(config, current_timestamp())
    }

    /// The store configuration that was saved.
    pub fn store_config(&self) -> (config: S3Config)
        ensures
            config.bucket@ == self.bucket@,
            config.region@ == self.region@,
            config.access_key@ == self.access_key@,
            config.secret_key@ == self.secret_key@,
    {
        S3Config {
            bucket: self.bucket.clone(),
            region: self.region.clone(),
            access_key: self.access_key.clone(),
            secret_key: self.secret_key.clone(),
        }
    }
}

/// A file on the drive: its identifier and its name.
#[derive(Debug, Clone, PartialEq, Eq)]
pub struct DriveFileMetadata {
    pub id: String,
    pub name: String,
}

/// What the identity provider says of the holder of a token.
#[derive(Debug, Clone, PartialEq, Eq)]
pub struct GoogleUserInfo {
    pub id: String,
    pub email: String,
    pub name: String,
    pub picture: Option<String>,
}

/// A signed-in user.
#[derive(Debug, Clone, PartialEq, Eq)]
pub struct AuthSession {
    pub user_id: i64,
    pub google_id: String,
    pub email: String,
    pub name: String,
    pub picture_url: Option<String>,
    pub has_s3_config: bool,
    pub has_drive_access: bool,
}

impl AuthSession {
    /// The session of the user `user_id`, who is who `info` says.
    pub fn open(
        user_id: i64,
        info: GoogleUserInfo,
        has_s3_config: bool,
        has_drive_access: bool,
    ) -> (session: AuthSession)
        ensures
            session.user_id == user_id,
            session.google_id == info.id,
            session.email == info.email,
            session.name == info.name,
            session.picture_url == info.picture,
            session.has_s3_config == has_s3_config,
            session.has_drive_access == has_drive_access,
    {
        AuthSession {
            user_id,
            google_id: info.id,
            email: info.email,
            name: info.name,
            picture_url: info.picture,
            has_s3_config,
            has_drive_access,
        }
    }
}

} // verus!
