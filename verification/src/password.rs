//! Password hashing: bcrypt behind two small functions.

use bcrypt::BcryptError;
use vstd::prelude::*;

verus! {

/// `bcrypt::BcryptError`, handed on unopened: nothing is said of what it holds.
#[verifier::external_type_specification]
#[verifier::external_body]
pub struct ExBcryptError(BcryptError);

/// What bcrypt answers when a password is checked against a stored hash: `Some(true)` when
/// the hash was made from the password, `Some(false)` when it was made from another one,
/// `None` when the stored text is not a bcrypt hash.
pub uninterp spec fn password_matches(password: Seq<char>, hashed: Seq<char>) -> Option<bool>;

/// How many characters a hash has.
pub const HASH_LEN: usize = 60;

/// How every hash that is made here begins: version 2b, cost 12.
pub open spec fn hash_head() -> Seq<char> {
    "$2b$12$"@
}

/// Whether a text has the shape of a hash that was made here: sixty characters, of which
/// the first seven name the version and the cost.
pub open spec fn has_hash_shape(hashed: Seq<char>) -> bool {
    &&& hashed.len() == HASH_LEN
    &&& hashed.subrange(0, 7) == hash_head()
}

/// `bcrypt::hash` at `bcrypt::DEFAULT_COST`.
///
/// Trusted: the salt is random, so the text itself is left open; but whatever hash comes
/// back is written as version 2b with cost 12 in sixty characters, and checking the same
/// password against it succeeds (the check reads cost and salt out of the hash and repeats
/// the computation, as the library's usage notes show). The call fails where the system
/// gives no random bytes, so success is not promised.
#[verifier::external_body]
fn bcrypt_hash(password: &str) -> (r: Result<String, BcryptError>)
    ensures
        r matches Ok(hashed) ==> has_hash_shape(hashed@),
        r matches Ok(hashed) ==> password_matches(password@, hashed@) == Some(true),
{
    bcrypt::hash(password, bcrypt::DEFAULT_COST)
}

/// `bcrypt::verify`.
///
/// Trusted: the answer depends on the two texts alone.
#[verifier::external_body]
fn bcrypt_verify(password: &str, hashed: &str) -> (r: Result<bool, BcryptError>)
    ensures
        password_matches(password@, hashed@) == match r {
            Ok(valid) => Some(valid),
            Err(_) => None::<bool>,
        },
{
    bcrypt::verify(password, hashed)
}

/// The `Display` text of a `bcrypt::BcryptError`.
#[verifier::external_body]
pub(crate) fn password_error_text(error: &BcryptError) -> String {
    error.to_string()
}

/// Hashes a password with a fresh random salt.
///
/// Two calls on one password give different hashes; each of them has the shape of a hash
/// and matches the password.
pub fn hash_password(password: String) -> (r: Result<String, BcryptError>)
    ensures
        r matches Ok(hashed) ==> has_hash_shape(hashed@),
        r matches Ok(hashed) ==> password_matches(password@, hashed@) == Some(true),
{
    match bcrypt_hash(password.as_str()) {
        Ok(pwd) => Ok(pwd),
        Err(e) => Err(e),
    }
}

/// Checks a password against a stored hash.
///
/// `Ok(true)` and `Ok(false)` tell a match from a mismatch; an error means that the stored
/// text is no bcrypt hash.
pub fn verify_password(password: String, hashed_password: &str) -> (r: Result<bool, BcryptError>)
    ensures
        password_matches(password@, hashed_password@) == match r {
            Ok(valid) => Some(valid),
            Err(_) => None::<bool>,
        },
{
    match bcrypt_verify(password.as_str(), hashed_password) {
        Ok(result) => Ok(result),
        Err(e) => Err(e),
    }
}

} // verus!
