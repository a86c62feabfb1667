//! The closed set of failures the library reports.

use crate::tier::Tier;
use vstd::prelude::*;

verus! {

/// Why an operation on a photo failed.
#[derive(Debug, Clone, PartialEq, Eq)]
pub enum GalleryError {
    /// The source could not be decoded as a raster image.
    Decode,
    /// The codec failed while producing the derivative of a tier.
    Encode { tier: Tier },
    /// The object store failed on a request for the object at `key`.
    Store { key: String },
    /// An object that was expected at `key` is missing.
    NotFound { key: String },
    /// The object at `key` does not hold a well-formed metadata record.
    Serialization { key: String },
}

/// A failure as contracts speak of it.
pub enum ErrorView {
    Decode,
    Encode { tier: Tier },
    Store { key: Seq<char> },
    NotFound { key: Seq<char> },
    Serialization { key: Seq<char> },
}

impl View for GalleryError {
    type V = ErrorView;

    open spec fn view(&self) -> ErrorView {
        match self {
            GalleryError::Decode => ErrorView::Decode,
            GalleryError::Encode { tier } => ErrorView::Encode { tier: *tier },
            GalleryError::Store { key } => ErrorView::Store { key: key@ },
            GalleryError::NotFound { key } => ErrorView::NotFound { key: key@ },
            GalleryError::Serialization { key } => ErrorView::Serialization { key: key@ },
        }
    }
}

} // verus!
