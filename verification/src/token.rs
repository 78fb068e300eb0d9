//! Session tokens: signed claims that name a user and expire after an hour.

use crate::clock::{calendar_seconds, token_seconds, CALENDAR_LIMIT};
use crate::object_id::ObjectId;
use jsonwebtoken::errors::ErrorKind;
use jsonwebtoken::{DecodingKey, EncodingKey, Header, Validation};
use serde::Deserialize;
use serde_json::Value;
use vstd::prelude::*;

verus! {

/// How long a token stays valid, in seconds.
pub const TOKEN_LIFETIME: u64 = 3600;

/// The audience that every token is issued for and checked against.
pub open spec fn audience() -> Seq<char> {
    "example.com"@
}

/// What a token says: who the user is, whom the token is for, and when it ends.
#[derive(Clone, Debug, PartialEq, Eq)]
pub struct MyClaims {
    pub user_id: ObjectId,
    pub aud: String,
    pub exp: u64,
}

/// `MyClaims` as plain values.
pub struct ClaimsView {
    pub user_id: Seq<u8>,
    pub aud: Seq<char>,
    pub exp: u64,
}

impl View for MyClaims {
    type V = ClaimsView;

    open spec fn view(&self) -> ClaimsView {
        ClaimsView { user_id: self.user_id@, aud: self.aud@, exp: self.exp }
    }
}

/// Why a token was refused.
#[derive(Clone, Copy, Debug, PartialEq, Eq, Structural)]
pub enum DecodeTokenError {
    /// The text is no token, or its signature does not fit.
    InvalidToken,
    /// The token was issued by or for somebody else.
    InvalidIssuer,
    /// Anything else: the token has expired, or its claims cannot be read.
    OtherError,
}

/// The failures of the token library that the backend tells apart.
#[derive(Clone, Copy, Debug, PartialEq, Eq, Structural)]
pub enum TokenFailure {
    /// The text has not the shape of a token.
    InvalidToken,
    /// The signature does not fit the secret.
    InvalidSignature,
    /// The issuer is not the expected one.
    InvalidIssuer,
    /// The audience is not the expected one.
    InvalidAudience,
    /// Any other failure: a part that cannot be read, a missing end, and the like.
    Other,
}

/// The compact token that signing the claims with the secret gives, or the message of the
/// failure to sign.
pub uninterp spec fn signed_token(
    user_id: Seq<u8>,
    aud: Seq<char>,
    exp: u64,
    secret: Seq<char>,
) -> Result<Seq<char>, Seq<char>>;

/// What opening a token under a secret and for an audience gives: the claims as JSON text
/// where the text is a token, its HS256 signature fits the secret, it names an end and is
/// for the audience; the failure otherwise. Expiry plays no part in it.
pub uninterp spec fn opened_token(
    token: Seq<char>,
    secret: Seq<char>,
    audience: Seq<char>,
) -> Result<Seq<char>, TokenFailure>;

/// The three claims `user_id`, `aud` and `exp` that a JSON text holds, if it holds them in
/// the expected form.
pub uninterp spec fn claims_in(payload: Seq<char>) -> Option<(Seq<u8>, Seq<char>, u64)>;

/// The claims of a token that opens and holds the three claims; `None` for every other
/// text.
pub open spec fn opened_claims(
    token: Seq<char>,
    secret: Seq<char>,
    audience: Seq<char>,
) -> Option<(Seq<u8>, Seq<char>, u64)> {
    match opened_token(token, secret, audience) {
        Ok(payload) => claims_in(payload),
        Err(_) => None,
    }
}

/// The three claims as the tuple that `opened_claims` gives.
pub open spec fn claims_tuple(claims: ClaimsView) -> (Seq<u8>, Seq<char>, u64) {
    (claims.user_id, claims.aud, claims.exp)
}

/// `jsonwebtoken::encode` with the default header (HS256) and `EncodingKey::from_secret`, on
/// the claims `user_id` (as the BSON library writes an identifier), `aud` and `exp`.
///
/// Trusted: signing succeeds (under HS256 with a secret as key, no step of it can fail);
/// the token depends on the claims and the secret alone; and it opens again under the same
/// secret and for the audience that it names, giving the same claims.
#[verifier::external_body]
fn hs256_sign(claims: &MyClaims, secret: &str) -> (r: Result<String, String>)
    ensures
        r is Ok,
        signed_token(claims.user_id@, claims.aud@, claims.exp, secret@) == match r {
            Ok(token) => Ok::<Seq<char>, Seq<char>>(token@),
            Err(message) => Err::<Seq<char>, Seq<char>>(message@),
        },
        r matches Ok(token) ==> opened_claims(token@, secret@, claims.aud@) == Some(
            claims_tuple(claims@),
        ),
{
    let id = bson::oid::ObjectId::from_bytes(claims.user_id.bytes);
    let mut wire = serde_json::Map::new();
    wire.insert("user_id".to_string(), serde_json::to_value(id).unwrap_or_default());
    wire.insert("aud".to_string(), Value::from(claims.aud.as_str()));
    wire.insert("exp".to_string(), Value::from(claims.exp));
    let key = EncodingKey::from_secret(secret.as_bytes());
    match jsonwebtoken::encode(&Header::default(), &wire, &key) {
        Ok(token) => Ok(token),
        Err(e) => Err(e.to_string()),
    }
}

/// `jsonwebtoken::decode` under the default validation (HS256, `exp` required) with the
/// audience set and the check of `exp` against the clock switched off. The claims come
/// back as JSON text, a failure as its kind.
///
/// Trusted: the outcome depends on the three texts alone.
#[verifier::external_body]
fn hs256_open(token: &str, secret: &str, audience: &str) -> (r: Result<String, TokenFailure>)
    ensures
        opened_token(token@, secret@, audience@) == match r {
            Ok(payload) => Ok::<Seq<char>, TokenFailure>(payload@),
            Err(kind) => Err::<Seq<char>, TokenFailure>(kind),
        },
{
    let mut rules = Validation::default();
    rules.set_audience(&[audience]);
    rules.validate_exp = false;
    let key = DecodingKey::from_secret(secret.as_bytes());
    match jsonwebtoken::decode::<Value>(token, &key, &rules) {
        Ok(data) => Ok(data.claims.to_string()),
        Err(e) => Err(match e.kind() {
            ErrorKind::InvalidToken => TokenFailure::InvalidToken,
            ErrorKind::InvalidSignature => TokenFailure::InvalidSignature,
            ErrorKind::InvalidIssuer => TokenFailure::InvalidIssuer,
            ErrorKind::InvalidAudience => TokenFailure::InvalidAudience,
            _ => TokenFailure::Other,
        }),
    }
}

/// `serde_json::from_str`, and `Deserialize::deserialize` for the three claims: `user_id`
/// as the BSON library reads an identifier, `aud` as a text, `exp` as a `u64`.
///
/// Trusted: what is read depends on the text alone.
#[verifier::external_body]
fn read_claims(payload: &str) -> (r: Option<MyClaims>)
    ensures
        claims_in(payload@) == match r {
            Some(claims) => Some(claims_tuple(claims@)),
            None => None::<(Seq<u8>, Seq<char>, u64)>,
        },
{
    let wire: Value = serde_json::from_str(payload).ok()?;
    let user_id = bson::oid::ObjectId::deserialize(&wire["user_id"]).ok()?;
    let aud = String::deserialize(&wire["aud"]).ok()?;
    let exp = u64::deserialize(&wire["exp"]).ok()?;
    Some(MyClaims { user_id: ObjectId { bytes: user_id.bytes() }, aud, exp })
}

/// The claims of a token issued at `now` for a user.
pub open spec fn claims_at(user_id: Seq<u8>, now: u64) -> ClaimsView {
    ClaimsView { user_id, aud: audience(), exp: (now + TOKEN_LIFETIME) as u64 }
}

/// The text that stands for a signing outcome: the token, or else the failure's message.
pub open spec fn token_text(outcome: Result<Seq<char>, Seq<char>>) -> Seq<char> {
    match outcome {
        Ok(token) => token,
        Err(message) => message,
    }
}

/// The token issued at `now` for a user under a secret.
pub open spec fn issued_token(user_id: Seq<u8>, secret: Seq<char>, now: u64) -> Seq<char> {
    let claims = claims_at(user_id, now);
    token_text(signed_token(claims.user_id, claims.aud, claims.exp, secret))
}

/// What a token issued at `issued` stands for at `now`: its claims for one hour, the last
/// second included, and nothing after that.
pub open spec fn standing(user_id: Seq<u8>, issued: u64, now: u64) -> Option<
    (Seq<u8>, Seq<char>, u64),
> {
    if now <= issued + TOKEN_LIFETIME {
        Some(claims_tuple(claims_at(user_id, issued)))
    } else {
        None
    }
}

/// Issues a token at a given time: the claims name the user and the audience, and end one
/// hour after `now`.
///
/// The token opens again to these claims; so it is accepted at every time up to its end,
/// the last second included, and refused at every later time.
pub fn create_token_at(user_id: ObjectId, secret: &str, now: u64) -> (token: String)
    requires
        now + TOKEN_LIFETIME <= u64::MAX,
    ensures
        token@ == issued_token(user_id@, secret@, now),
        opened_claims(token@, secret@, audience()) == Some(
            claims_tuple(claims_at(user_id@, now)),
        ),
        forall|later: u64| #[trigger]
            accepted_claims(token@, secret@, later) == standing(user_id@, now, later),
{
    let my_claims = MyClaims {
        user_id,
        aud: String::from_str("example.com"),
        exp: now + TOKEN_LIFETIME,
    };
    match hs256_sign(&my_claims, secret) {
        Ok(token) => token,
        Err(message) => message,
    }
}

/// What issuing owes where the clock read `now`: the token issued at `now`, which opens
/// again to its claims and stands for one hour from `now`.
pub open spec fn issued_at(
    token: Seq<char>,
    user_id: Seq<u8>,
    secret: Seq<char>,
    now: u64,
) -> bool {
    &&& now < CALENDAR_LIMIT
    &&& token == issued_token(user_id, secret, now)
    &&& opened_claims(token, secret, audience()) == Some(claims_tuple(claims_at(user_id, now)))
    &&& forall|later: u64| #[trigger]
        accepted_claims(token, secret, later) == standing(user_id, now, later)
}

/// Issues a token now.
pub fn create_token(user_id: ObjectId, secret: &str) -> (token: String)
    ensures
        exists|now: u64| #[trigger] issued_at(token@, user_id@, secret@, now),
{
    let now = calendar_seconds();
    let token = create_token_at(user_id, secret, now);
    assert(issued_at(token@, user_id@, secret@, now));
    token
}

/// The class of a failure of the token library.
pub open spec fn failure_class(kind: TokenFailure) -> DecodeTokenError {
    match kind {
        TokenFailure::InvalidToken | TokenFailure::InvalidSignature => {
            DecodeTokenError::InvalidToken
        },
        TokenFailure::InvalidIssuer | TokenFailure::InvalidAudience => {
            DecodeTokenError::InvalidIssuer
        },
        TokenFailure::Other => DecodeTokenError::OtherError,
    }
}

/// Sorts a failure of the token library into the three classes: a malformed token or a
/// wrong signature; a wrong issuer or audience; anything else.
pub fn classify_failure(kind: TokenFailure) -> (class: DecodeTokenError)
    ensures
        class == failure_class(kind),
{
    match kind {
        TokenFailure::InvalidToken => DecodeTokenError::InvalidToken,
        TokenFailure::InvalidSignature => DecodeTokenError::InvalidToken,
        TokenFailure::InvalidIssuer => DecodeTokenError::InvalidIssuer,
        TokenFailure::InvalidAudience => DecodeTokenError::InvalidIssuer,
        TokenFailure::Other => DecodeTokenError::OtherError,
    }
}

/// Whether claims have run out at `now`: the end lies strictly in the past.
pub open spec fn expired(claims: ClaimsView, now: u64) -> bool {
    claims.exp < now
}

/// Refuses claims that have run out, and hands back the others unchanged.
pub fn check_expiry(claims: MyClaims, now: u64) -> (r: Result<MyClaims, DecodeTokenError>)
    ensures
        match r {
            Ok(kept) => !expired(claims@, now) && kept == claims,
            Err(e) => expired(claims@, now) && e == DecodeTokenError::OtherError,
        },
{
    if claims.exp < now {
        Err(DecodeTokenError::OtherError)
    } else {
        Ok(claims)
    }
}

/// The claims that a token stands for at `now` under a secret, if it stands for any: it
/// must open under the secret for the audience, and must not have run out.
pub open spec fn accepted_claims(token: Seq<char>, secret: Seq<char>, now: u64) -> Option<
    (Seq<u8>, Seq<char>, u64),
> {
    match opened_claims(token, secret, audience()) {
        Some(claims) => if claims.2 < now {
            None
        } else {
            Some(claims)
        },
        None => None,
    }
}

/// Why a token is refused, where it is: the class of the failure where it does not open;
/// `OtherError` where its claims cannot be read, or have run out.
pub open spec fn rejection(token: Seq<char>, secret: Seq<char>) -> DecodeTokenError {
    match opened_token(token, secret, audience()) {
        Err(kind) => failure_class(kind),
        Ok(_) => DecodeTokenError::OtherError,
    }
}

/// What validation owes at `now`: the claims that the token stands for, or the error of
/// `rejection` where it stands for none.
pub open spec fn validated(
    r: Result<MyClaims, DecodeTokenError>,
    token: Seq<char>,
    secret: Seq<char>,
    now: u64,
) -> bool {
    match r {
        Ok(claims) => accepted_claims(token, secret, now) == Some(claims_tuple(claims@)),
        Err(e) => accepted_claims(token, secret, now) is None && e == rejection(token, secret),
    }
}

/// Validates a token at a given time.
///
/// The claims come back exactly when the token opens under the secret for the audience,
/// holds the three claims, and has not run out.
pub fn decode_token_at(token: &str, secret: &str, now: u64) -> (r: Result<
    MyClaims,
    DecodeTokenError,
>)
    ensures
        validated(r, token@, secret@, now),
{
    match hs256_open(token, secret, "example.com") {
        Ok(payload) => match read_claims(payload.as_str()) {
            Some(claims) => check_expiry(claims, now),
            None => Err(DecodeTokenError::OtherError),
        },
        Err(kind) => Err(classify_failure(kind)),
    }
}

/// A token that opens to the claims issued at `issued` is accepted at every time up to one
/// hour later and refused at every time after that. No state but the token, the secret and
/// the clock plays a part: removing the cookie does not end the token.
pub proof fn lemma_token_stands_for_one_hour(
    token: Seq<char>,
    secret: Seq<char>,
    user_id: Seq<u8>,
    issued: u64,
    now: u64,
)
    requires
        issued + TOKEN_LIFETIME <= u64::MAX,
        opened_claims(token, secret, audience()) == Some(claims_tuple(claims_at(user_id, issued))),
    ensures
        accepted_claims(token, secret, now) == standing(user_id, issued, now),
        now <= issued + TOKEN_LIFETIME ==> accepted_claims(token, secret, now) is Some,
        now > issued + TOKEN_LIFETIME ==> accepted_claims(token, secret, now) is None,
{
}

/// Validates a token now.
pub fn decode_token(token: &str, secret: &str) -> (r: Result<MyClaims, DecodeTokenError>)
    ensures
        exists|now: u64| #[trigger] validated(r, token@, secret@, now),
{
    let now = token_seconds();
    decode_token_at(token, secret, now)
}

} // verus!
