use storefront::config::Settings;
use storefront::cookie::CookieChange;
use storefront::models::{TempUser, VerifyOtpInput};
use storefront::object_id::ObjectId;
use storefront::status::{Body, Reply, Status};
use storefront::user_service::{
    new_user, verify_check, verify_on_delete, verify_on_insert, verify_on_pending,
    verify_on_pending_at, verify_on_pending_with, verify_session,
};

fn waiting(otp: Option<&str>) -> TempUser {
    TempUser {
        _id: "key-1".to_string(),
        otp: otp.map(|o| o.to_string()),
        email: "jane@x.com".to_string(),
        password: "hashed".to_string(),
        name: "Jane".to_string(),
        expires_at: 1_300,
    }
}

fn code(otp: &str) -> VerifyOtpInput {
    VerifyOtpInput { otp: otp.to_string() }
}

fn text_of(reply: &Reply) -> &str {
    match &reply.body {
        Body::Text(t) => t,
        _ => panic!("a text body was expected"),
    }
}

#[test]
fn a_confirmation_without_cookie_is_refused() {
    let reply = verify_session(None).unwrap_err();
    assert_eq!(reply.status, Status::BadRequest);
    assert_eq!(text_of(&reply), "your session have been expired");
}

#[test]
fn the_cookie_gives_the_key() {
    assert_eq!(verify_session(Some("key-1".to_string())).unwrap(), "key-1");
}

#[test]
fn the_right_code_creates_the_account() {
    let user = verify_on_pending(&code("123456"), Ok(Some(waiting(Some("123456"))))).unwrap();
    assert!(user.id.is_some());
    assert_eq!(user.name, "Jane");
    assert_eq!(user.email, "jane@x.com");
    assert_eq!(user.password, "hashed");
    assert_eq!(user.role, None);
}

#[test]
fn two_accounts_get_two_identifiers() {
    let a = verify_on_pending(&code("1"), Ok(Some(waiting(Some("1"))))).unwrap();
    let b = verify_on_pending(&code("1"), Ok(Some(waiting(Some("1"))))).unwrap();
    assert_ne!(a.id, b.id);
}

#[test]
fn a_wrong_code_is_refused() {
    let reply = verify_on_pending(&code("123457"), Ok(Some(waiting(Some("123456"))))).unwrap_err();
    assert_eq!(reply.status, Status::BadRequest);
    assert_eq!(text_of(&reply), "Invalid OTP");
}

#[test]
fn codes_are_compared_as_texts() {
    assert!(verify_check(&code("012345"), &waiting(Some("12345"))).is_some());
    assert!(verify_check(&code("123456 "), &waiting(Some("123456"))).is_some());
    assert!(verify_check(&code(""), &waiting(Some("123456"))).is_some());
    assert!(verify_check(&code(""), &waiting(Some(""))).is_none());
    assert!(verify_check(&code("123456"), &waiting(Some("123456"))).is_none());
    let no_code = verify_check(&code("123456"), &waiting(None)).unwrap();
    assert_eq!(text_of(&no_code), "your session is expired");
}

#[test]
fn a_missing_registration_is_refused() {
    let reply = verify_on_pending(&code("123456"), Ok(None)).unwrap_err();
    assert_eq!(reply.status, Status::BadRequest);
    assert_eq!(text_of(&reply), "your session is expired");
}

#[test]
fn a_registration_without_code_is_refused() {
    let reply = verify_on_pending(&code("123456"), Ok(Some(waiting(None)))).unwrap_err();
    assert_eq!(reply.status, Status::BadRequest);
    assert_eq!(text_of(&reply), "your session is expired");
}

#[test]
fn a_failing_lookup_is_a_server_error() {
    let reply = verify_on_pending(&code("123456"), Err("down".to_string())).unwrap_err();
    assert_eq!(reply.status, Status::ServerError);
    assert_eq!(text_of(&reply), "Server error");
}

#[test]
fn a_stale_registration_is_confirmed_by_default() {
    let user =
        verify_on_pending_at(&code("123456"), Ok(Some(waiting(Some("123456")))), false, u64::MAX);
    assert!(user.is_ok());
    let settings = Settings::new("secret".to_string());
    assert!(!settings.enforce_pending_expiry);
    assert!(verify_on_pending_with(&settings, &code("123456"), Ok(Some(waiting(Some("123456")))))
        .is_ok());
}

#[test]
fn a_stale_registration_is_refused_where_the_end_is_enforced() {
    let reply =
        verify_on_pending_at(&code("123456"), Ok(Some(waiting(Some("123456")))), true, 1_301)
            .unwrap_err();
    assert_eq!(reply.status, Status::BadRequest);
    assert_eq!(text_of(&reply), "your session is expired");
    assert!(
        verify_on_pending_at(&code("123456"), Ok(Some(waiting(Some("123456")))), true, 1_300).is_ok()
    );
    let settings = Settings::new("secret".to_string()).with_pending_expiry(true);
    assert!(verify_on_pending_with(&settings, &code("123456"), Ok(Some(waiting(Some("123456")))))
        .is_err());
}

#[test]
fn an_enforced_end_leaves_the_other_refusals_alone() {
    let wrong = verify_on_pending_at(&code("1"), Ok(Some(waiting(Some("2")))), true, 0).unwrap_err();
    assert_eq!(text_of(&wrong), "Invalid OTP");
    let missing = verify_on_pending_at(&code("1"), Ok(None), true, u64::MAX).unwrap_err();
    assert_eq!(text_of(&missing), "your session is expired");
    let failed = verify_on_pending_at(&code("1"), Err("x".to_string()), true, u64::MAX).unwrap_err();
    assert_eq!(failed.status, Status::ServerError);
}

#[test]
fn the_account_takes_the_stored_fields() {
    let mut record = waiting(Some("123456"));
    record.email = "Jane@X.com".to_string();
    let user = new_user(record, ObjectId { bytes: [7; 12] });
    assert_eq!(user.id, Some(ObjectId { bytes: [7; 12] }));
    assert_eq!(user.email, "jane@x.com");
    assert_eq!(user.password, "hashed");
    assert_eq!(user.name, "Jane");
    assert_eq!(user.role, None);
}

#[test]
fn a_failed_insert_is_a_server_error() {
    let reply = verify_on_insert(Err("duplicate".to_string())).unwrap_err();
    assert_eq!(reply.status, Status::ServerError);
    assert_eq!(text_of(&reply), "Server Error");
    assert!(verify_on_insert(Ok(())).is_ok());
}

#[test]
fn a_deleted_registration_clears_the_cookie() {
    let response = verify_on_delete(Ok(())).unwrap();
    assert_eq!(response.reply.status, Status::Created);
    assert_eq!(text_of(&response.reply), "User created successfully");
    assert_eq!(response.cookie, CookieChange::Remove("session_token".to_string()));
}

#[test]
fn a_failed_delete_is_a_server_error() {
    let reply = verify_on_delete(Err("down".to_string())).unwrap_err();
    assert_eq!(reply.status, Status::ServerError);
    assert_eq!(text_of(&reply), "server error");
}
