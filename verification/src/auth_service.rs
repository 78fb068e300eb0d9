//! Login, the caller's own profile, and logout.

use crate::clock::{calendar_seconds, CALENDAR_LIMIT};
use crate::cookie::{
    access_cookie, access_cookie_name, Cookie, CookieChange, CookieChangeView, Response,
    ResponseView,
};
use crate::models::{Login, Profile, ProfileView, TempUserView, User, UserView};
use crate::object_id::ObjectId;
use crate::password::{password_matches, verify_password};
use crate::status::{bare, text, Reply, ReplyView, Status};
use crate::text::contains_char;
use crate::user_service::confirmed_user;
use crate::token::{
    accepted_claims, audience, claims_at, claims_tuple, create_token_at, issued_token,
    opened_claims, standing, TOKEN_LIFETIME,
};
use vstd::prelude::*;

verus! {

/// Whether a text can be an email address: it holds an `@`.
pub open spec fn is_email(email: Seq<char>) -> bool {
    email.contains('@')
}

/// Login, first step: a malformed email is a bad request; any other is looked up as it was
/// typed, case included.
pub fn login_start(input: &Login) -> (r: Result<(), Reply>)
    ensures
        match r {
            Ok(_) => is_email(input.email@),
            Err(reply) => !is_email(input.email@) && reply@ == bare(Status::BadRequest),
        },
{
    if !contains_char(input.email.as_str(), '@') {
        return Err(Reply::bare(Status::BadRequest));
    }
    Ok(())
}

/// The email under which login looks for the account: what was typed, as it was typed. No
/// case is folded here, unlike at registration, so an address typed in another case than
/// the stored one finds no account.
pub fn login_email(input: &Login) -> (email: String)
    ensures
        email@ == input.email@,
{
    input.email.clone()
}

/// What login decides once the password was checked: `valid` is the outcome of the check
/// (`None` where the stored hash could not be read), `id` the identifier of the account.
pub open spec fn login_verdict_spec(valid: Option<bool>, id: Option<ObjectId>) -> Result<
    ObjectId,
    ReplyView,
> {
    match valid {
        None => Err(bare(Status::BadRequest)),
        Some(false) => Err(text(Status::BadRequest, "Invalid password"@)),
        Some(true) => match id {
            None => Err(bare(Status::ServerError)),
            Some(id) => Ok(id),
        },
    }
}

/// Decides a login from the outcome of the password check.
pub fn login_verdict(valid: Option<bool>, id: Option<ObjectId>) -> (r: Result<ObjectId, Reply>)
    ensures
        match r {
            Ok(user_id) => login_verdict_spec(valid, id) == Ok::<ObjectId, ReplyView>(user_id),
            Err(reply) => login_verdict_spec(valid, id) == Err::<ObjectId, ReplyView>(reply@),
        },
{
    match valid {
        Some(true) => match id {
            Some(id) => Ok(id),
            None => Err(Reply::bare(Status::ServerError)),
        },
        Some(false) => Err(Reply::text(Status::BadRequest, "Invalid password")),
        None => Err(Reply::bare(Status::BadRequest)),
    }
}

/// The reply to a login that went through: no body, and the cookie with the token.
pub open spec fn logged_in(token: Seq<char>) -> ResponseView {
    ResponseView {
        reply: bare(Status::Success),
        cookie: CookieChangeView::Put(access_cookie(token, TOKEN_LIFETIME)),
    }
}

/// Builds the reply to a login that went through.
pub fn login_response(access_token: String) -> (response: Response)
    ensures
        response@ == logged_in(access_token@),
{
    Response {
        reply: Reply::bare(Status::Success),
        cookie: CookieChange::Put(Cookie::access(access_token, TOKEN_LIFETIME)),
    }
}

/// What a login at `now` comes to, given what the store found under the email.
pub open spec fn login_outcome(
    password: Seq<char>,
    lookup: Result<Option<User>, String>,
    secret: Seq<char>,
    now: u64,
) -> Result<ResponseView, ReplyView> {
    match lookup {
        Err(_) => Err(bare(Status::ServerError)),
        Ok(None) => Err(bare(Status::NotFound)),
        Ok(Some(user)) => match login_verdict_spec(
            password_matches(password, user.password@),
            user.id,
        ) {
            Err(reply) => Err(reply),
            Ok(id) => Ok(logged_in(issued_token(id@, secret, now))),
        },
    }
}

/// What login owes at `now`.
pub open spec fn login_decided(
    r: Result<Response, Reply>,
    password: Seq<char>,
    lookup: Result<Option<User>, String>,
    secret: Seq<char>,
    now: u64,
) -> bool {
    match r {
        Ok(response) => login_outcome(password, lookup, secret, now) == Ok::<
            ResponseView,
            ReplyView,
        >(response@),
        Err(reply) => login_outcome(password, lookup, secret, now) == Err::<
            ResponseView,
            ReplyView,
        >(reply@),
    }
}

/// What holds of the token that a login at `now` hands out: at every time up to one hour
/// after `now` it is accepted and names the account, and at every later time it is
/// refused.
pub open spec fn token_stands(
    response: Response,
    lookup: Result<Option<User>, String>,
    secret: Seq<char>,
    now: u64,
) -> bool {
    &&& response.cookie matches CookieChange::Put(cookie)
    &&& lookup matches Ok(Some(user))
    &&& user.id matches Some(id)
    &&& opened_claims(cookie.value@, secret, audience()) == Some(
        claims_tuple(claims_at(id@, now)),
    )
    &&& forall|later: u64| #[trigger]
        accepted_claims(cookie.value@, secret, later) == standing(id@, now, later)
}

/// Login at a given time, after the look-up of the email: checks the password against the
/// stored hash and issues the token.
pub fn login_on_lookup_at(
    input: Login,
    lookup: Result<Option<User>, String>,
    secret: &str,
    now: u64,
) -> (r: Result<Response, Reply>)
    requires
        now + TOKEN_LIFETIME <= u64::MAX,
    ensures
        login_decided(r, input.password@, lookup, secret@, now),
        r matches Ok(response) ==> token_stands(response, lookup, secret@, now),
{
    match lookup {
        Ok(Some(user)) => {
            let valid = match verify_password(input.password, user.password.as_str()) {
                Ok(valid) => Some(valid),
                Err(_) => None,
            };
            let id = match login_verdict(valid, user.id) {
                Ok(id) => id,
                Err(reply) => {
                    return Err(reply);
                },
            };
            let access_token = create_token_at(id, secret, now);
            Ok(login_response(access_token))
        },
        Ok(None) => Err(Reply::bare(Status::NotFound)),
        Err(_) => Err(Reply::bare(Status::ServerError)),
    }
}

/// Login now, after the look-up of the email.
pub fn login_on_lookup(input: Login, lookup: Result<Option<User>, String>, secret: &str) -> (r:
    Result<Response, Reply>)
    ensures
        exists|now: u64|
            now < CALENDAR_LIMIT && #[trigger] login_decided(
                r,
                input.password@,
                lookup,
                secret@,
                now,
            ),
{
    let now = calendar_seconds();
    login_on_lookup_at(input, lookup, secret, now)
}

/// An account that came out of a confirmed registration can log in with the password that
/// was registered: the hash that registration stored matches the password, confirmation
/// copies the hash, and login checks the password against it.
pub proof fn lemma_confirmed_user_can_log_in(
    password: Seq<char>,
    waiting: TempUserView,
    id: ObjectId,
    user: User,
    secret: Seq<char>,
    now: u64,
)
    requires
        password_matches(password, waiting.password) == Some(true),
        user.id == Some(id),
        user@ == confirmed_user(waiting, id@),
    ensures
        login_outcome(password, Ok(Some(user)), secret, now) == Ok::<ResponseView, ReplyView>(
            logged_in(issued_token(id@, secret, now)),
        ),
{
}

/// What an account shows of itself.
pub open spec fn profile_of(user: UserView) -> ProfileView {
    ProfileView { id: user.id, name: user.name, email: user.email, role: user.role }
}

/// The caller's own profile: the account that the session gate attached, without the
/// password hash.
pub fn me(user: User) -> (r: (Status, Profile))
    ensures
        r.0 == Status::Success,
        r.1@ == profile_of(user@),
{
    (Status::Success, Profile { id: user.id, name: user.name, email: user.email, role: user.role })
}

/// The reply to a logout: the cookie goes; the token itself stays valid until it ends.
pub open spec fn logged_out() -> ResponseView {
    ResponseView {
        reply: text(Status::Success, "user logged out success"@),
        cookie: CookieChangeView::Remove(access_cookie_name()),
    }
}

/// Logout: removes the cookie where there is one.
pub fn logout(cookie: Option<String>) -> (r: Result<Response, Reply>)
    ensures
        match r {
            Ok(response) => cookie is Some && response@ == logged_out(),
            Err(reply) => cookie is None && reply@ == text(
                Status::Unauthorized,
                "you are not logged in"@,
            ),
        },
{
    match cookie {
        Some(_) => Ok(
            Response {
                reply: Reply::text(Status::Success, "user logged out success"),
                cookie: CookieChange::Remove(String::from_str("access_token")),
            },
        ),
        None => Err(Reply::text(Status::Unauthorized, "you are not logged in")),
    }
}

} // verus!
