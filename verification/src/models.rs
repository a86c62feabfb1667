//! The records that travel between the library and its callers.

use vstd::prelude::*;

verus! {

/// How to reach the object store: a bucket in a region, and a key pair.
#[derive(Debug, Clone, PartialEq, Eq)]
pub struct S3Config {
    pub bucket: String,
    pub region: String,
    pub access_key: String,
    pub secret_key: String,
}

/// A store configuration as contracts speak of it.
pub struct S3ConfigView {
    pub bucket: Seq<char>,
    pub region: Seq<char>,
    pub access_key: Seq<char>,
    pub secret_key: Seq<char>,
}

impl View for S3Config {
    type V = S3ConfigView;

    open spec fn view(&self) -> S3ConfigView {
        S3ConfigView {
            bucket: self.bucket@,
            region: self.region@,
            access_key: self.access_key@,
            secret_key: self.secret_key@,
        }
    }
}

impl S3ConfigView {
    /// All four settings are present.
    pub open spec fn is_configured(self) -> bool {
        self.bucket.len() > 0 && self.region.len() > 0 && self.access_key.len() > 0
            && self.secret_key.len() > 0
    }
}

impl S3Config {
    /// Whether bucket, region, access key and secret key are all non-empty.
    pub fn is_configured(&self) -> (configured: bool)
        ensures
            configured == self@.is_configured(),
    {
        !self.bucket.as_str().is_empty() && !self.region.as_str().is_empty()
            && !self.access_key.as_str().is_empty() && !self.secret_key.as_str().is_empty()
    }
}

/// The durable description of one published photo.
///
/// A tier that was not generated has the empty string as its URL. Size and
/// dimensions are those of the original derivative.
#[derive(Debug, Clone, PartialEq, Eq)]
pub struct PhotoMetadata {
    pub id: String,
    pub original_name: String,
    pub upload_date: String,
    pub file_size: u64,
    pub thumbnail_url: String,
    pub small_url: String,
    pub medium_url: String,
    pub large_url: String,
    pub original_url: String,
    pub width: u32,
    pub height: u32,
}

/// A metadata record as contracts speak of it.
pub struct PhotoRecord {
    pub id: Seq<char>,
    pub original_name: Seq<char>,
    pub upload_date: Seq<char>,
    pub file_size: u64,
    pub thumbnail_url: Seq<char>,
    pub small_url: Seq<char>,
    pub medium_url: Seq<char>,
    pub large_url: Seq<char>,
    pub original_url: Seq<char>,
    pub width: u32,
    pub height: u32,
}

impl View for PhotoMetadata {
    type V = PhotoRecord;

    open spec fn view(&self) -> PhotoRecord {
        PhotoRecord {
            id: self.id@,
            original_name: self.original_name@,
            upload_date: self.upload_date@,
            file_size: self.file_size,
            thumbnail_url: self.thumbnail_url@,
            small_url: self.small_url@,
            medium_url: self.medium_url@,
            large_url: self.large_url@,
            original_url: self.original_url@,
            width: self.width,
            height: self.height,
        }
    }
}

/// One encoded derivative: the name of its tier, its JPEG bytes and its
/// dimensions.
#[derive(Debug, Clone, PartialEq, Eq)]
pub struct CompressedImage {
    pub size_name: String,
    pub data: Vec<u8>,
    pub width: u32,
    pub height: u32,
}

/// A derivative as contracts speak of it.
pub struct Derivative {
    pub size_name: Seq<char>,
    pub data: Seq<u8>,
    pub width: u32,
    pub height: u32,
}

impl View for CompressedImage {
    type V = Derivative;

    open spec fn view(&self) -> Derivative {
        Derivative {
            size_name: self.size_name@,
            data: self.data@,
            width: self.width,
            height: self.height,
        }
    }
}

/// The derivatives of a list, each as contracts speak of it.
pub open spec fn derivatives_of(images: Seq<CompressedImage>) -> Seq<Derivative> {
    images.map_values(|image: CompressedImage| image@)
}

} // verus!
