//! The session gate: only a request with a valid token of a known user goes on.

use crate::clock::token_seconds;
use crate::models::User;
use crate::object_id::ObjectId;
use crate::status::{failure, Reply, ReplyView, Status};
use crate::token::{
    accepted_claims, audience, claims_at, claims_tuple, decode_token_at, opened_claims,
    TOKEN_LIFETIME,
};
use vstd::prelude::*;

verus! {

/// Why the session gate stops a request before the store is asked, if it does: no cookie, or a
/// token that is not accepted at `now`.
pub open spec fn session_refusal(cookie: Option<String>, secret: Seq<char>, now: u64) -> Option<
    ReplyView,
> {
    match cookie {
        None => Some(failure(Status::Unauthorized, "You are not logged in"@)),
        Some(token) => if accepted_claims(token@, secret, now) is Some {
            None
        } else {
            Some(failure(Status::BadRequest, "your token is invalid please login again"@))
        },
    }
}

/// What the first step of the session gate owes at `now`: the user that the token names, or the
/// reply of `session_refusal`.
pub open spec fn session_checked(
    r: Result<ObjectId, Reply>,
    cookie: Option<String>,
    secret: Seq<char>,
    now: u64,
) -> bool {
    match r {
        Ok(user_id) => {
            &&& cookie matches Some(token)
            &&& accepted_claims(token@, secret, now) matches Some(claims)
            &&& claims.0 == user_id@
        },
        Err(reply) => session_refusal(cookie, secret, now) == Some(reply@),
    }
}

/// The session gate at a given time, first step: whose account to load.
///
/// The session gate reads the cookie, the secret and the clock, and nothing else.
pub fn validate_user_at(cookie: Option<String>, secret: &str, now: u64) -> (r: Result<
    ObjectId,
    Reply,
>)
    ensures
        session_checked(r, cookie, secret@, now),
{
    let token = match cookie {
        Some(c) => c,
        None => {
            return Err(Reply::failure(Status::Unauthorized, "You are not logged in"));
        },
    };
    match decode_token_at(token.as_str(), secret, now) {
        Ok(data) => Ok(data.user_id),
        Err(_) => Err(
            Reply::failure(Status::BadRequest, "your token is invalid please login again"),
        ),
    }
}

/// The session gate lets a token through for one hour from its issue, and for no longer: a
/// token that opens to the claims issued at `issued` gives its user at every time up to one
/// hour later, and is refused as invalid at every time after that. Nothing but the cookie,
/// the secret and the clock plays a part, so a logout in between changes nothing.
pub proof fn lemma_session_gate_follows_the_hour(
    r: Result<ObjectId, Reply>,
    token: String,
    secret: Seq<char>,
    user_id: Seq<u8>,
    issued: u64,
    now: u64,
)
    requires
        issued + TOKEN_LIFETIME <= u64::MAX,
        opened_claims(token@, secret, audience()) == Some(
            claims_tuple(claims_at(user_id, issued)),
        ),
        session_checked(r, Some(token), secret, now),
    ensures
        now <= issued + TOKEN_LIFETIME ==> (r matches Ok(id) && id@ == user_id),
        now > issued + TOKEN_LIFETIME ==> (r matches Err(reply) && reply@ == failure(
            Status::BadRequest,
            "your token is invalid please login again"@,
        )),
{
}

/// The session gate now, first step.
pub fn validate_user(cookie: Option<String>, secret: &str) -> (r: Result<ObjectId, Reply>)
    ensures
        exists|now: u64| #[trigger] session_checked(r, cookie, secret@, now),
{
    let now = token_seconds();
    validate_user_at(cookie, secret, now)
}

/// Why the session gate stops a request after the look-up of the user, if it does.
pub open spec fn lookup_refusal(lookup: Result<Option<User>, String>) -> Option<ReplyView> {
    match lookup {
        Ok(Some(_)) => None,
        Ok(None) => Some(failure(Status::NotFound, "Invalid Token user not found"@)),
        Err(_) => Some(failure(Status::ServerError, "Internal Server Error"@)),
    }
}

/// The session gate, after the look-up: the user to attach to the request, or the reply
/// that ends it. The handler behind it runs only on `Ok`.
pub fn validate_user_on_lookup(lookup: Result<Option<User>, String>) -> (r: Result<User, Reply>)
    ensures
        match r {
            Ok(user) => lookup == Ok::<Option<User>, String>(Some(user)),
            Err(reply) => lookup_refusal(lookup) == Some(reply@),
        },
{
    match lookup {
        Ok(Some(usr)) => Ok(usr),
        Err(_) => Err(Reply::failure(Status::ServerError, "Internal Server Error")),
        Ok(None) => Err(Reply::failure(Status::NotFound, "Invalid Token user not found")),
    }
}

} // verus!
