//! Random keys for sessions, products and stored objects.

use vstd::prelude::*;

verus! {

/// The length of a UUID in its hyphenated form.
pub const UUID_TEXT_LEN: usize = 36;

/// `uuid::Uuid::new_v4` rendered by its `Display`: a random UUID in hyphenated form.
///
/// Trusted: the text has thirty-six characters. Which ones, is left to chance.
#[verifier::external_body]
pub(crate) fn new_session_key() -> (key: String)
    ensures
        key@.len() == UUID_TEXT_LEN,
{
    uuid::Uuid::new_v4().to_string()
}

/// `bson::Uuid::new` rendered by its `Display`: a random UUID in hyphenated form.
///
/// Trusted: the text has thirty-six characters. Which ones, is left to chance.
#[verifier::external_body]
pub(crate) fn new_document_key() -> (key: String)
    ensures
        key@.len() == UUID_TEXT_LEN,
{
    bson::Uuid::new().to_string()
}

} // verus!
