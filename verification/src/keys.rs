//! The layout of object keys: where the objects of a photo live in the store.

use vstd::prelude::*;
use vstd::string::StringExecFns;

verus! {

/// The key of the derivative `size_name` of photo `id`:
/// `photos/{id}/{size_name}.jpg`.
pub open spec fn spec_derivative_key(id: Seq<char>, size_name: Seq<char>) -> Seq<char> {
    "photos/"@ + id + "/"@ + size_name + ".jpg"@
}

/// The key of the metadata record of photo `id`: `metadata/{id}.json`.
pub open spec fn spec_metadata_key(id: Seq<char>) -> Seq<char> {
    "metadata/"@ + id + ".json"@
}

/// The prefix under which every metadata record lives: `metadata/`.
pub open spec fn spec_metadata_prefix() -> Seq<char> {
    "metadata/"@
}

/// The public address of the object at `key`:
/// `https://{bucket}.s3.{region}.amazonaws.com/{key}`.
pub open spec fn spec_object_url(bucket: Seq<char>, region: Seq<char>, key: Seq<char>) -> Seq<
    char,
> {
    "https://"@ + bucket + ".s3."@ + region + ".amazonaws.com/"@ + key
}

/// The key under which the derivative `size_name` of photo `photo_id` is stored.
pub fn derivative_key(photo_id: &str, size_name: &str) -> (key: String)
    ensures
        key@ == spec_derivative_key(photo_id@, size_name@),
{
    let mut key = String::from_str("photos/");
    key.append(photo_id);
    key.append("/");
    key.append(size_name);
    key.append(".jpg");
    key
}

/// The key under which the metadata record of photo `photo_id` is stored.
pub fn metadata_key(photo_id: &str) -> (key: String)
    ensures
        key@ == spec_metadata_key(photo_id@),
{
    let mut key = String::from_str("metadata/");
    key.append(photo_id);
    key.append(".json");
    key
}

/// The prefix that lists every metadata record.
pub fn metadata_prefix() -> (prefix: String)
    ensures
        prefix@ == spec_metadata_prefix(),
{
    String::from_str("metadata/")
}

/// The public address of the object at `key` in `bucket`.
pub fn object_url(bucket: &str, region: &str, key: &str) -> (url: String)
    ensures
        url@ == spec_object_url(bucket@, region@, key@),
{
    let mut url = String::from_str("https://");
    url.append(bucket);
    url.append(".s3.");
    url.append(region);
    url.append(".amazonaws.com/");
    url.append(key);
    url
}

} // verus!
