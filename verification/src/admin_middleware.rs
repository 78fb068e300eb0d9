//! The admin gate: only a request of a user whose role is `admin` goes on.

use crate::clock::token_seconds;
use crate::models::{role_kind, Role, User};
use crate::object_id::ObjectId;
use crate::status::{text, Reply, ReplyView, Status};
use crate::token::{accepted_claims, decode_token_at};
use vstd::prelude::*;

verus! {

/// Whether a user is an administrator: the role is there and reads `admin`.
pub open spec fn has_admin_role(user: User) -> bool {
    role_kind(user.role) == Role::Admin
}

/// The reply to a request that may not pass: unauthorized, with nothing said of the reason.
pub open spec fn unauthorized() -> ReplyView {
    text(Status::Unauthorized, "UNAUTHORIZED"@)
}

/// Why the admin gate stops a request before the store is asked, if it does: the request
/// carries no cookie, or a token that is not accepted at `now` (malformed, wrongly signed,
/// for another audience, or run out). Either way the request is unauthorized, and the
/// reply does not tell the two apart.
pub open spec fn admin_token_refusal(cookie: Option<String>, secret: Seq<char>, now: u64) -> Option<
    ReplyView,
> {
    match cookie {
        None => Some(unauthorized()),
        Some(token) => if accepted_claims(token@, secret, now) is Some {
            None
        } else {
            Some(unauthorized())
        },
    }
}

/// What the first step of the admin gate owes at `now`: the user that the token names, or
/// the reply of `admin_token_refusal`.
pub open spec fn admin_checked(
    r: Result<ObjectId, Reply>,
    cookie: Option<String>,
    secret: Seq<char>,
    now: u64,
) -> bool {
    match r {
        Ok(user_id) => {
            &&& cookie matches Some(token)
            &&& accepted_claims(token@, secret, now) matches Some(claims)
            &&& claims.0 == user_id@
        },
        Err(reply) => admin_token_refusal(cookie, secret, now) == Some(reply@),
    }
}

/// The admin gate at a given time, first step: whose account to load.
///
/// Every refusal at this step is unauthorized.
pub fn is_admin_at(cookie: Option<String>, secret: &str, now: u64) -> (r: Result<ObjectId, Reply>)
    ensures
        admin_checked(r, cookie, secret@, now),
        r matches Err(reply) ==> reply@ == unauthorized(),
{
    let token = match cookie {
        Some(c) => c,
        None => {
            return Err(Reply::text(Status::Unauthorized, "UNAUTHORIZED"));
        },
    };
    match decode_token_at(token.as_str(), secret, now) {
        Ok(payload) => Ok(payload.user_id),
        Err(_) => Err(Reply::text(Status::Unauthorized, "UNAUTHORIZED")),
    }
}

/// The admin gate now, first step.
pub fn is_admin(cookie: Option<String>, secret: &str) -> (r: Result<ObjectId, Reply>)
    ensures
        exists|now: u64| #[trigger] admin_checked(r, cookie, secret@, now),
{
    let now = token_seconds();
    is_admin_at(cookie, secret, now)
}

/// Why the admin gate stops a request after the look-up of the user, if it does: the store
/// failed; the user is unknown; the user has no role; the role is not `admin`.
pub open spec fn admin_refusal(lookup: Result<Option<User>, String>) -> Option<ReplyView> {
    match lookup {
        Err(_) => Some(text(Status::ServerError, "Failed to fetch user"@)),
        Ok(None) => Some(text(Status::Unauthorized, "UNAUTHORIZED"@)),
        Ok(Some(user)) => match role_kind(user.role) {
            Role::Absent => Some(
                text(Status::Unauthorized, "You are not allowed for this request"@),
            ),
            Role::Other => Some(text(Status::Unauthorized, "UNAUTHORIZED"@)),
            Role::Admin => None,
        },
    }
}

/// The admin gate, after the look-up: lets the request through, or ends it.
///
/// A user passes if and only if the role reads `admin`; a user without a role, or with any
/// other, is unauthorized.
pub fn is_admin_on_lookup(lookup: &Result<Option<User>, String>) -> (r: Result<(), Reply>)
    ensures
        r is Ok <==> (*lookup matches Ok(Some(user)) && has_admin_role(user)),
        match r {
            Ok(_) => admin_refusal(*lookup) is None,
            Err(reply) => admin_refusal(*lookup) == Some(reply@),
        },
        (*lookup matches Ok(Some(user)) && !has_admin_role(user)) ==> (r matches Err(reply)
            && reply.status == Status::Unauthorized),
{
    let user = match lookup {
        Err(_) => {
            return Err(Reply::text(Status::ServerError, "Failed to fetch user"));
        },
        Ok(None) => {
            return Err(Reply::text(Status::Unauthorized, "UNAUTHORIZED"));
        },
        Ok(Some(user)) => user,
    };
    match user.role() {
        Role::Absent => Err(
            Reply::text(Status::Unauthorized, "You are not allowed for this request"),
        ),
        Role::Other => Err(Reply::text(Status::Unauthorized, "UNAUTHORIZED")),
        Role::Admin => Ok(()),
    }
}

} // verus!
