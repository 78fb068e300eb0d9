use storefront::cookie::{Cookie, CookieChange};
use storefront::models::{TempUser, User};
use storefront::object_id::ObjectId;
use storefront::password::verify_password;
use storefront::status::{Body, Reply, Status};
use storefront::user_service::{
    pending_registration, register_check, register_email, register_on_insert, register_on_lookup,
    register_on_mail, MailOrder, PENDING_LIFETIME,
};

fn request(name: &str, email: &str, password: &str) -> TempUser {
    TempUser {
        _id: String::new(),
        otp: None,
        email: email.to_string(),
        password: password.to_string(),
        name: name.to_string(),
        expires_at: 0,
    }
}

fn account(email: &str) -> User {
    User {
        id: Some(ObjectId { bytes: [1; 12] }),
        name: "Jane".to_string(),
        email: email.to_string(),
        password: "hash".to_string(),
        role: None,
    }
}

fn text_of(reply: &Reply) -> &str {
    match &reply.body {
        Body::Text(t) => t,
        _ => panic!("a text body was expected"),
    }
}

#[test]
fn the_lookup_email_is_lower_case() {
    assert_eq!(register_email(&request("Jane", "Jane@X.Com", "pw123")), "jane@x.com");
    assert_eq!(register_email(&request("Jane", "jane@x.com", "pw123")), "jane@x.com");
    assert_eq!(register_email(&request("Jane", "", "pw123")), "");
}

#[test]
fn emails_that_differ_in_case_are_looked_up_alike() {
    let first = register_email(&request("Jane", "JANE@x.com", "a"));
    let second = register_email(&request("Jane", "jane@X.COM", "b"));
    assert_eq!(first, second);
}

#[test]
fn an_existing_account_is_a_conflict() {
    let reply = register_check(&Ok(Some(account("jane@x.com")))).unwrap();
    assert_eq!(reply.status, Status::Conflict);
    assert_eq!(text_of(&reply), "user with this email already exists");
}

#[test]
fn a_failing_store_is_a_server_error() {
    let reply = register_check(&Err("connection reset".to_string())).unwrap();
    assert_eq!(reply.status, Status::ServerError);
    assert_eq!(text_of(&reply), "server error");
}

#[test]
fn a_free_email_goes_on() {
    assert!(register_check(&Ok(None)).is_none());
}

#[test]
fn registering_twice_against_one_account_conflicts_twice() {
    let stored = Ok(Some(account("jane@x.com")));
    let first = register_on_lookup(&stored).unwrap_err();
    let second = register_on_lookup(&stored).unwrap_err();
    assert_eq!(first.status, Status::Conflict);
    assert_eq!(second.status, Status::Conflict);
}

#[test]
fn a_free_email_gets_a_key_and_a_code() {
    let order = register_on_lookup(&Ok(None)).unwrap();
    assert_eq!(order.session_id.len(), 36);
    assert_eq!(order.session_id.matches('-').count(), 4);
    assert!((100_000..=999_999).contains(&order.otp));
    let other = register_on_lookup(&Ok(None)).unwrap();
    assert_ne!(order.session_id, other.session_id);
}

#[test]
fn the_record_holds_what_was_registered() {
    let order = MailOrder { session_id: "key-1".to_string(), otp: 123_456 };
    let record = pending_registration(
        request("Jane", "Jane@X.com", "pw123"),
        order,
        "hashed".to_string(),
        1_000,
    );
    assert_eq!(
        record,
        TempUser {
            _id: "key-1".to_string(),
            otp: Some("123456".to_string()),
            email: "jane@x.com".to_string(),
            password: "hashed".to_string(),
            name: "Jane".to_string(),
            expires_at: 1_300,
        }
    );
}

#[test]
fn a_registration_waits_five_minutes() {
    assert_eq!(PENDING_LIFETIME, 300);
}

#[test]
fn a_mail_that_was_not_sent_ends_the_registration() {
    let order = MailOrder { session_id: "key-1".to_string(), otp: 123_456 };
    let reply = register_on_mail(request("Jane", "jane@x.com", "pw123"), order, false).unwrap_err();
    assert_eq!(reply.status, Status::ServerError);
    assert_eq!(text_of(&reply), "Failed to send email");
}

#[test]
fn a_mail_that_was_sent_gives_the_record() {
    let before = std::time::SystemTime::now()
        .duration_since(std::time::UNIX_EPOCH)
        .unwrap()
        .as_secs();
    let order = MailOrder { session_id: "key-1".to_string(), otp: 654_321 };
    let record = register_on_mail(request("Jane", "Jane@x.com", "pw123"), order, true).unwrap();
    assert_eq!(record._id, "key-1");
    assert_eq!(record.otp.as_deref(), Some("654321"));
    assert_eq!(record.email, "jane@x.com");
    assert_eq!(record.name, "Jane");
    assert_ne!(record.password, "pw123");
    assert_eq!(record.password.len(), 60);
    assert!(record.password.starts_with("$2b$12$"));
    assert!(verify_password("pw123".to_string(), &record.password).unwrap());
    assert!(record.expires_at >= before + 300);
    assert!(record.expires_at <= before + 300 + 60);
}

#[test]
fn a_stored_record_sets_the_cookie() {
    let response = register_on_insert("key-1".to_string(), Ok(())).unwrap();
    assert_eq!(response.reply.status, Status::Success);
    match &response.reply.body {
        Body::Json(t) => assert_eq!(t, "A 6 digit otp has been sent to your gmail"),
        _ => panic!("a JSON body was expected"),
    }
    assert_eq!(
        response.cookie,
        CookieChange::Put(Cookie {
            name: "session_token".to_string(),
            value: "key-1".to_string(),
            http_only: true,
            same_site_strict: true,
            max_age: None,
        })
    );
}

#[test]
fn a_record_that_was_not_stored_is_a_server_error() {
    let reply = register_on_insert("key-1".to_string(), Err("write failed".to_string())).unwrap_err();
    assert_eq!(reply.status, Status::ServerError);
    assert_eq!(text_of(&reply), "write failed");
}
