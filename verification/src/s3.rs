//! Object storage: where an upload goes and under which address it is found again.

use crate::unique::{new_document_key, UUID_TEXT_LEN};
use vstd::prelude::*;

verus! {

/// The key of a stored object: `upload/`, a unique part, a dot, the file's name.
pub open spec fn object_key_spec(unique: Seq<char>, file_name: Seq<char>) -> Seq<char> {
    "upload/"@ + unique + "."@ + file_name
}

/// The public address of a stored object.
pub open spec fn object_url_spec(bucket: Seq<char>, region: Seq<char>, key: Seq<char>) -> Seq<
    char,
> {
    "https://"@ + bucket + ".s3."@ + region + ".amazonaws.com/"@ + key
}

/// Builds the key of an object from its unique part and the file's name.
pub fn object_key(unique: &str, file_name: &str) -> (key: String)
    ensures
        key@ == object_key_spec(unique@, file_name@),
{
    let mut key = String::from_str("upload/");
    key.append(unique);
    key.append(".");
    key.append(file_name);
    key
}

/// Builds the public address of an object.
pub fn object_url(bucket: &str, region: &str, key: &str) -> (url: String)
    ensures
        url@ == object_url_spec(bucket@, region@, key@),
{
    let mut url = String::from_str("https://");
    url.append(bucket);
    url.append(".s3.");
    url.append(region);
    url.append(".amazonaws.com/");
    url.append(key);
    url
}

/// Where one upload goes.
#[derive(Clone, Debug, PartialEq, Eq)]
pub struct StoredObject {
    pub key: String,
    pub url: String,
}

/// Picks the place of an upload: a new random key, and the address that belongs to it.
pub fn upload_single_place(file_name: &String, bucket_name: &str, region: &str) -> (place:
    StoredObject)
    ensures
        exists|unique: Seq<char>|
            unique.len() == UUID_TEXT_LEN && place.key@ == #[trigger] object_key_spec(
                unique,
                file_name@,
            ),
        place.url@ == object_url_spec(bucket_name@, region@, place.key@),
{
    let uuid = new_document_key();
    let key = object_key(uuid.as_str(), file_name.as_str());
    let url = object_url(bucket_name, region, key.as_str());
    StoredObject { key, url }
}

/// The outcome of an upload: the address where the object went in, a fixed message where
/// the storage refused it.
pub fn upload_single_on_put(place: StoredObject, put: Result<(), String>) -> (r: Result<
    String,
    String,
>)
    ensures
        match r {
            Ok(url) => put is Ok && url == place.url,
            Err(message) => put is Err && message@ == "Failed to upload to s3"@,
        },
{
    match put {
        Ok(_) => Ok(place.url),
        Err(_) => Err(String::from_str("Failed to upload to s3")),
    }
}

} // verus!
