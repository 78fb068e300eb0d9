//! Accounts: registration with a mailed one-time code, its confirmation, and the plain
//! account handlers.
//!
//! Each handler is cut at the points where it waits for the store or the mail relay. A
//! function here takes what came back and says what to do next: `Ok` carries what the next
//! request needs, `Err` the reply that ends the handler early.

use crate::clock::{calendar_seconds, CALENDAR_LIMIT};
use crate::config::Settings;
use crate::cookie::{
    session_cookie, session_cookie_name, Cookie, CookieChange, CookieChangeView, Response,
    ResponseView,
};
use crate::models::{TempUser, TempUserView, UpdateUser, User, UserView, VerifyOtpInput};
use crate::object_id::{
    fresh_object_id, is_object_id_text, object_id_bytes, parse_object_id, ObjectId,
};
use crate::otp::{create_otp, is_otp, is_otp_text, otp_text, signed_decimal};
use crate::password::{
    has_hash_shape, hash_password, password_error_text, password_matches,
};
use crate::status::{bare, json, reply_view, text, Reply, ReplyView, Status};
use crate::text::{lowercase, same_ignoring_case, to_lowercase};
use crate::unique::{new_session_key, UUID_TEXT_LEN};
use vstd::prelude::*;

verus! {

/// How long a waiting registration is meant to last, in seconds.
pub const PENDING_LIFETIME: u64 = 300;

/// What registration mails, and the key under which the registration will wait.
#[derive(Clone, Debug, PartialEq, Eq)]
pub struct MailOrder {
    pub session_id: String,
    pub otp: i32,
}

/// The email under which registration looks for an existing account: the lower-case form
/// of what was typed.
pub fn register_email(input: &TempUser) -> (email: String)
    ensures
        email@ == lowercase(input.email@),
{
    to_lowercase(input.email.as_str())
}

/// Why registration stops after the look-up, if it does: an account with the email exists
/// (conflict), or the store failed.
pub open spec fn register_refusal(lookup: Result<Option<User>, String>) -> Option<ReplyView> {
    match lookup {
        Ok(Some(_)) => Some(text(Status::Conflict, "user with this email already exists"@)),
        Ok(None) => None,
        Err(_) => Some(text(Status::ServerError, "server error"@)),
    }
}

/// Decides on the look-up of the email among the accounts.
pub fn register_check(lookup: &Result<Option<User>, String>) -> (refusal: Option<Reply>)
    ensures
        reply_view(refusal) == register_refusal(*lookup),
{
    match lookup {
        Ok(Some(_)) => Some(Reply::text(Status::Conflict, "user with this email already exists")),
        Ok(None) => None,
        Err(_) => Some(Reply::text(Status::ServerError, "server error")),
    }
}

/// Registration after the look-up: refuses, or draws the key and the one-time code.
///
/// Nothing has been stored when this returns, whatever it returns.
pub fn register_on_lookup(lookup: &Result<Option<User>, String>) -> (r: Result<MailOrder, Reply>)
    ensures
        match r {
            Ok(order) => {
                &&& register_refusal(*lookup) is None
                &&& is_otp(order.otp as int)
                &&& order.session_id@.len() == UUID_TEXT_LEN
            },
            Err(reply) => register_refusal(*lookup) == Some(reply@),
        },
{
    match register_check(lookup) {
        Some(reply) => Err(reply),
        None => {
            let session_id = new_session_key();
            let otp = create_otp();
            Ok(MailOrder { session_id, otp })
        },
    }
}

/// The record of a waiting registration: the key, the code in decimal, the email in lower
/// case, the hashed password, the name, and an end five minutes after `now`.
pub open spec fn pending_record(
    input: TempUserView,
    session_id: Seq<char>,
    otp: int,
    hashed: Seq<char>,
    now: u64,
) -> TempUserView {
    TempUserView {
        _id: session_id,
        otp: Some(signed_decimal(otp)),
        email: lowercase(input.email),
        password: hashed,
        name: input.name,
        expires_at: (now + PENDING_LIFETIME) as u64,
    }
}

/// Builds the record of a waiting registration.
pub fn pending_registration(input: TempUser, order: MailOrder, hashed: String, now: u64) -> (record:
    TempUser)
    requires
        now + PENDING_LIFETIME <= u64::MAX,
    ensures
        record@ == pending_record(input@, order.session_id@, order.otp as int, hashed@, now),
        is_otp(order.otp as int) ==> (record.otp matches Some(code) && is_otp_text(code@)),
{
    let code = otp_text(order.otp);
    TempUser {
        _id: order.session_id,
        email: to_lowercase(input.email.as_str()),
        password: hashed,
        otp: Some(code),
        name: input.name,
        expires_at: now + PENDING_LIFETIME,
    }
}

/// The reply to a registration whose mail could not be sent.
pub open spec fn mail_failure() -> ReplyView {
    text(Status::ServerError, "Failed to send email"@)
}

/// Registration after the mail: when the mail went out, hashes the password and builds the
/// record to store; when it did not, gives up with nothing stored.
pub fn register_on_mail(input: TempUser, order: MailOrder, sent: bool) -> (r: Result<
    TempUser,
    Reply,
>)
    ensures
        !sent ==> (r matches Err(reply) && reply@ == mail_failure()),
        sent ==> match r {
            Ok(record) => {
                &&& has_hash_shape(record.password@)
                &&& password_matches(input.password@, record.password@) == Some(true)
                &&& exists|now: u64|
                    now < CALENDAR_LIMIT && record@ == #[trigger] pending_record(
                        input@,
                        order.session_id@,
                        order.otp as int,
                        record.password@,
                        now,
                    )
            },
            Err(reply) => reply.status == Status::ServerError && reply.body is Text,
        },
{
    if !sent {
        return Err(Reply::text(Status::ServerError, "Failed to send email"));
    }
    let hashed = match hash_password(input.password.clone()) {
        Ok(hashed) => hashed,
        Err(e) => {
            return Err(Reply::owned_text(Status::ServerError, password_error_text(&e)));
        },
    };
    let now = calendar_seconds();
    Ok(pending_registration(input, order, hashed, now))
}

/// The reply to a registration that now waits: a note to look for the mail, and the cookie
/// with the key.
pub open spec fn registered(session_id: Seq<char>) -> ResponseView {
    ResponseView {
        reply: json(Status::Success, "A 6 digit otp has been sent to your gmail"@),
        cookie: CookieChangeView::Put(session_cookie(session_id)),
    }
}

/// Registration after the record was stored, or was not.
pub fn register_on_insert(session_id: String, inserted: Result<(), String>) -> (r: Result<
    Response,
    Reply,
>)
    ensures
        match r {
            Ok(response) => inserted is Ok && response@ == registered(session_id@),
            Err(reply) => inserted matches Err(message) && reply@ == text(
                Status::ServerError,
                message@,
            ),
        },
{
    match inserted {
        Ok(_) => Ok(
            Response {
                reply: Reply::json(Status::Success, "A 6 digit otp has been sent to your gmail"),
                cookie: CookieChange::Put(Cookie::session(session_id)),
            },
        ),
        Err(message) => Err(Reply::owned_text(Status::ServerError, message)),
    }
}

/// Whether some account has the email.
pub open spec fn has_account(accounts: Seq<User>, email: Seq<char>) -> bool {
    exists|i: int| 0 <= i < accounts.len() && (#[trigger] accounts[i]).email@ == email
}

/// What a store that works and holds these accounts finds under an email.
pub open spec fn lookup_by_email(accounts: Seq<User>, email: Seq<char>) -> Result<
    Option<User>,
    String,
> {
    if has_account(accounts, email) {
        Ok(
            Some(
                accounts[choose|i: int|
                    0 <= i < accounts.len() && (#[trigger] accounts[i]).email@ == email],
            ),
        )
    } else {
        Ok(None)
    }
}

/// Two registrations under emails that differ in case only are decided alike as long as
/// the accounts stay the same, and registration itself adds no account: both are refused
/// as a conflict where an account has the lower-case email, and neither is where none has.
pub proof fn lemma_same_email_same_decision(
    accounts: Seq<User>,
    first: Seq<char>,
    second: Seq<char>,
)
    requires
        same_ignoring_case(first, second),
    ensures
        register_refusal(lookup_by_email(accounts, lowercase(second))) == register_refusal(
            lookup_by_email(accounts, lowercase(first)),
        ),
        has_account(accounts, lowercase(first)) ==> register_refusal(
            lookup_by_email(accounts, lowercase(second)),
        ) == Some(text(Status::Conflict, "user with this email already exists"@)),
        !has_account(accounts, lowercase(first)) ==> register_refusal(
            lookup_by_email(accounts, lowercase(second)),
        ) is None,
{
}

/// Once a registration is confirmed, its email is taken: a registration under the same
/// email, in whatever case, is refused as a conflict. The email of the account is the
/// lower-case form of the stored one, which was put in lower case when it was stored; so
/// this holds of every email that putting it in lower case twice changes no more than
/// once.
pub proof fn lemma_confirmed_email_is_taken(
    accounts: Seq<User>,
    account: User,
    waiting: TempUserView,
    id: Seq<u8>,
    first: Seq<char>,
    second: Seq<char>,
)
    requires
        same_ignoring_case(first, second),
        lowercase(lowercase(first)) == lowercase(first),
        waiting.email == lowercase(first),
        account@ == confirmed_user(waiting, id),
    ensures
        register_refusal(lookup_by_email(accounts.push(account), lowercase(second))) == Some(
            text(Status::Conflict, "user with this email already exists"@),
        ),
{
    let after = accounts.push(account);
    assert(after[accounts.len() as int].email@ == lowercase(second));
    assert(has_account(after, lowercase(second)));
}

/// The reply to a confirmation that comes without the cookie of a registration.
pub open spec fn no_session() -> ReplyView {
    text(Status::BadRequest, "your session have been expired"@)
}

/// Confirmation, first step: the key of the waiting registration, from the cookie.
pub fn verify_session(cookie: Option<String>) -> (r: Result<String, Reply>)
    ensures
        match r {
            Ok(key) => cookie == Some(key),
            Err(reply) => cookie is None && reply@ == no_session(),
        },
{
    match cookie {
        Some(key) => Ok(key),
        None => Err(Reply::text(Status::BadRequest, "your session have been expired")),
    }
}

/// Why a confirmation is refused, if it is: the store failed; no registration waits under
/// the key, or it holds no code; the code sent back differs from the one stored. The end
/// of the waiting time is not looked at.
pub open spec fn verify_refusal(
    submitted: Seq<char>,
    pending: Result<Option<TempUser>, String>,
) -> Option<ReplyView> {
    match pending {
        Err(_) => Some(text(Status::ServerError, "Server error"@)),
        Ok(None) => Some(text(Status::BadRequest, "your session is expired"@)),
        Ok(Some(waiting)) => match waiting.otp {
            None => Some(text(Status::BadRequest, "your session is expired"@)),
            Some(stored) => if stored@ == submitted {
                None
            } else {
                Some(text(Status::BadRequest, "Invalid OTP"@))
            },
        },
    }
}

/// Whether a confirmation goes through: a registration waits, and the code sent back is
/// the code stored, character for character.
pub open spec fn otp_confirmed(
    submitted: Seq<char>,
    pending: Result<Option<TempUser>, String>,
) -> bool {
    pending matches Ok(Some(waiting)) && waiting.otp matches Some(stored) && stored@ == submitted
}

/// Decides on the code that was sent back, against the registration that was found.
pub fn verify_check(input: &VerifyOtpInput, waiting: &TempUser) -> (refusal: Option<Reply>)
    ensures
        reply_view(refusal) == verify_refusal(
            input.otp@,
            Ok::<Option<TempUser>, String>(Some(*waiting)),
        ),
        refusal is None <==> otp_confirmed(
            input.otp@,
            Ok::<Option<TempUser>, String>(Some(*waiting)),
        ),
{
    match &waiting.otp {
        None => Some(Reply::text(Status::BadRequest, "your session is expired")),
        Some(stored) => if *stored == input.otp {
            None
        } else {
            Some(Reply::text(Status::BadRequest, "Invalid OTP"))
        },
    }
}

/// The account that a confirmed registration becomes: the name and the hashed password as
/// stored, the email in lower case, no role.
pub open spec fn confirmed_user(waiting: TempUserView, id: Seq<u8>) -> UserView {
    UserView {
        id: Some(id),
        name: waiting.name,
        email: lowercase(waiting.email),
        password: waiting.password,
        role: None,
    }
}

/// Builds the account of a confirmed registration.
pub fn new_user(waiting: TempUser, id: ObjectId) -> (user: User)
    ensures
        user@ == confirmed_user(waiting@, id@),
{
    User {
        id: Some(id),
        email: to_lowercase(waiting.email.as_str()),
        password: waiting.password,
        name: waiting.name,
        role: None,
    }
}

/// Confirmation after the look-up of the waiting registration: refuses, or hands out the
/// account to store, under a new identifier.
///
/// An account comes back if and only if the code sent back equals the code stored.
pub fn verify_on_pending(input: &VerifyOtpInput, pending: Result<Option<TempUser>, String>) -> (r:
    Result<User, Reply>)
    ensures
        r is Ok <==> otp_confirmed(input.otp@, pending),
        match r {
            Ok(user) => {
                &&& pending matches Ok(Some(waiting))
                &&& user.id matches Some(id)
                &&& user@ == confirmed_user(waiting@, id@)
            },
            Err(reply) => verify_refusal(input.otp@, pending) == Some(reply@),
        },
{
    match pending {
        Err(_) => Err(Reply::text(Status::ServerError, "Server error")),
        Ok(None) => Err(Reply::text(Status::BadRequest, "your session is expired")),
        Ok(Some(waiting)) => match verify_check(input, &waiting) {
            Some(reply) => Err(reply),
            None => Ok(new_user(waiting, fresh_object_id())),
        },
    }
}

/// Whether a registration that holds a code has waited for longer than it was meant to.
pub open spec fn lapsed(pending: Result<Option<TempUser>, String>, now: u64) -> bool {
    match pending {
        Ok(Some(waiting)) => waiting.otp is Some && waiting.expires_at < now,
        _ => false,
    }
}

/// Why a confirmation at `now` is refused, if it is, where the end of the waiting time may
/// be enforced: with it enforced, a registration that has lapsed is refused, whatever code
/// was sent back; in every other case the refusal is that of `verify_refusal`.
pub open spec fn verify_refusal_at(
    submitted: Seq<char>,
    pending: Result<Option<TempUser>, String>,
    enforce_expiry: bool,
    now: u64,
) -> Option<ReplyView> {
    if enforce_expiry && lapsed(pending, now) {
        Some(text(Status::BadRequest, "your session is expired"@))
    } else {
        verify_refusal(submitted, pending)
    }
}

/// Whether a registration that was found is past its end at `now`.
fn is_lapsed(pending: &Result<Option<TempUser>, String>, now: u64) -> (b: bool)
    ensures
        b == lapsed(*pending, now),
{
    match pending {
        Ok(Some(waiting)) => waiting.otp.is_some() && waiting.expires_at < now,
        _ => false,
    }
}

/// Confirmation at a given time, with the end of the waiting time enforced or not.
///
/// With `enforce_expiry` off this is `verify_on_pending`, and the time plays no part.
pub fn verify_on_pending_at(
    input: &VerifyOtpInput,
    pending: Result<Option<TempUser>, String>,
    enforce_expiry: bool,
    now: u64,
) -> (r: Result<User, Reply>)
    ensures
        r is Ok <==> (otp_confirmed(input.otp@, pending) && !(enforce_expiry && lapsed(
            pending,
            now,
        ))),
        match r {
            Ok(user) => {
                &&& pending matches Ok(Some(waiting))
                &&& user.id matches Some(id)
                &&& user@ == confirmed_user(waiting@, id@)
            },
            Err(reply) => verify_refusal_at(input.otp@, pending, enforce_expiry, now) == Some(
                reply@,
            ),
        },
{
    if enforce_expiry && is_lapsed(&pending, now) {
        return Err(Reply::text(Status::BadRequest, "your session is expired"));
    }
    verify_on_pending(input, pending)
}

/// Confirmation under the given settings: reads the clock only where the end of the
/// waiting time is enforced.
pub fn verify_on_pending_with(
    settings: &Settings,
    input: &VerifyOtpInput,
    pending: Result<Option<TempUser>, String>,
) -> (r: Result<User, Reply>)
    ensures
        !settings.enforce_pending_expiry ==> (r is Ok <==> otp_confirmed(input.otp@, pending)),
        r is Ok ==> otp_confirmed(input.otp@, pending),
        match r {
            Ok(user) => {
                &&& pending matches Ok(Some(waiting))
                &&& user.id matches Some(id)
                &&& user@ == confirmed_user(waiting@, id@)
            },
            Err(reply) => exists|now: u64|
                now < CALENDAR_LIMIT && #[trigger] verify_refusal_at(
                    input.otp@,
                    pending,
                    settings.enforce_pending_expiry,
                    now,
                ) == Some(reply@),
        },
{
    if settings.enforce_pending_expiry {
        let now = calendar_seconds();
        verify_on_pending_at(input, pending, true, now)
    } else {
        let r = verify_on_pending_at(input, pending, false, 0);
        proof {
            if r is Err {
                assert(verify_refusal_at(input.otp@, pending, false, 0) == Some(r->Err_0@));
            }
        }
        r
    }
}

/// Confirmation after the account was stored, or was not: goes on to delete the waiting
/// registration, or gives up.
pub fn verify_on_insert(inserted: Result<(), String>) -> (r: Result<(), Reply>)
    ensures
        match r {
            Ok(_) => inserted is Ok,
            Err(reply) => inserted is Err && reply@ == text(Status::ServerError, "Server Error"@),
        },
{
    match inserted {
        Ok(_) => Ok(()),
        Err(_) => Err(Reply::text(Status::ServerError, "Server Error")),
    }
}

/// The reply to a confirmation that went through: the account exists, the cookie of the
/// registration goes.
pub open spec fn confirmed() -> ResponseView {
    ResponseView {
        reply: text(Status::Created, "User created successfully"@),
        cookie: CookieChangeView::Remove(session_cookie_name()),
    }
}

/// Confirmation after the waiting registration was deleted, or was not.
pub fn verify_on_delete(deleted: Result<(), String>) -> (r: Result<Response, Reply>)
    ensures
        match r {
            Ok(response) => deleted is Ok && response@ == confirmed(),
            Err(reply) => deleted is Err && reply@ == text(Status::ServerError, "server error"@),
        },
{
    match deleted {
        Ok(_) => Ok(
            Response {
                reply: Reply::text(Status::Created, "User created successfully"),
                cookie: CookieChange::Remove(String::from_str("session_token")),
            },
        ),
        Err(_) => Err(Reply::text(Status::ServerError, "server error")),
    }
}

/// Reads the identifier of an account from the path: a malformed one is a bad request
/// with the message `Invalid Id`.
pub fn account_id(id: String) -> (r: Result<ObjectId, Reply>)
    ensures
        match r {
            Ok(oid) => is_object_id_text(id@) && oid@ == object_id_bytes(id@),
            Err(reply) => !is_object_id_text(id@) && reply@ == text(
                Status::BadRequest,
                "Invalid Id"@,
            ),
        },
{
    match parse_object_id(id) {
        Ok(oid) => Ok(oid),
        Err(e) => Err(Reply::owned_text(e.0, e.1)),
    }
}

/// The list of all accounts, after the store gave it or failed.
pub fn get_all_users_on_result(found: Result<Vec<User>, String>) -> (r: Result<Vec<User>, Reply>)
    ensures
        match r {
            Ok(users) => found == Ok::<Vec<User>, String>(users),
            Err(reply) => found matches Err(message) && reply@ == text(
                Status::ServerError,
                message@,
            ),
        },
{
    match found {
        Ok(users) => Ok(users),
        Err(message) => Err(Reply::owned_text(Status::ServerError, message)),
    }
}

/// Why no account is shown, if none is: the store failed, or it holds no such account.
pub open spec fn account_refusal(lookup: Result<Option<User>, String>) -> Option<ReplyView> {
    match lookup {
        Err(message) => Some(text(Status::ServerError, message@)),
        Ok(None) => Some(text(Status::NotFound, "User not found"@)),
        Ok(Some(_)) => None,
    }
}

/// One account, after the look-up.
pub fn get_user_by_id_on_lookup(lookup: Result<Option<User>, String>) -> (r: Result<User, Reply>)
    ensures
        match r {
            Ok(user) => lookup == Ok::<Option<User>, String>(Some(user)),
            Err(reply) => account_refusal(lookup) == Some(reply@),
        },
{
    match lookup {
        Ok(Some(value)) => Ok(value),
        Ok(None) => Err(Reply::text(Status::NotFound, "User not found")),
        Err(message) => Err(Reply::owned_text(Status::ServerError, message)),
    }
}

/// Reads the identifier of the account to change: a malformed one is a bad request
/// without a body.
pub fn update_user_id(id: String) -> (r: Result<ObjectId, Reply>)
    ensures
        match r {
            Ok(oid) => is_object_id_text(id@) && oid@ == object_id_bytes(id@),
            Err(reply) => !is_object_id_text(id@) && reply@ == bare(Status::BadRequest),
        },
{
    match parse_object_id(id) {
        Ok(oid) => Ok(oid),
        Err(_) => Err(Reply::bare(Status::BadRequest)),
    }
}

/// The fields that a change sets: the name, and the age as the store holds it.
pub fn update_user_fields(input: UpdateUser) -> (fields: (String, i32))
    ensures
        fields.0 == input.name,
        fields.1 == input.age,
{
    (input.name, input.age as i32)
}

/// What a change comes to: `matched` is how many accounts the store found under the
/// identifier.
pub open spec fn update_outcome(updated: Result<u64, String>) -> Status {
    match updated {
        Err(_) => Status::ServerError,
        Ok(matched) => if matched == 0 {
            Status::NotFound
        } else {
            Status::NoContent
        },
    }
}

/// A change of an account, after the store made it or did not.
pub fn update_user_on_result(updated: Result<u64, String>) -> (r: Result<Status, Status>)
    ensures
        match r {
            Ok(status) => status == Status::NoContent && update_outcome(updated) == status,
            Err(status) => status != Status::NoContent && update_outcome(updated) == status,
        },
{
    match updated {
        Err(_) => Err(Status::ServerError),
        Ok(matched) => if matched == 0 {
            Err(Status::NotFound)
        } else {
            Ok(Status::NoContent)
        },
    }
}

/// The removal of an account, after the store made it or failed.
pub fn delete_user_on_result(deleted: Result<(), String>) -> (r: Result<Reply, Reply>)
    ensures
        match r {
            Ok(reply) => deleted is Ok && reply@ == json(
                Status::Success,
                "user deleted success"@,
            ),
            Err(reply) => deleted matches Err(message) && reply@ == text(
                Status::ServerError,
                message@,
            ),
        },
{
    match deleted {
        Ok(_) => Ok(Reply::json(Status::Success, "user deleted success")),
        Err(message) => Err(Reply::owned_text(Status::ServerError, message)),
    }
}

/// The reply to an avatar that the storage refused.
pub fn avatar_refused() -> (reply: Reply)
    ensures
        reply@ == text(Status::ServerError, "falied to upload avatar"@),
{
    Reply::text(Status::ServerError, "falied to upload avatar")
}

/// The reply to a form that holds no avatar.
pub fn avatar_missing() -> (reply: Reply)
    ensures
        reply@ == text(Status::ServerError, "Server Error"@),
{
    Reply::text(Status::ServerError, "Server Error")
}

} // verus!
