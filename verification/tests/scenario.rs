use storefront::auth_middleware::{validate_user_at, validate_user_on_lookup};
use storefront::auth_service::{login_on_lookup_at, login_start, logout, me};
use storefront::cookie::CookieChange;
use storefront::models::{Login, TempUser, User, VerifyOtpInput};
use storefront::status::Status;
use storefront::user_service::{
    register_email, register_on_insert, register_on_lookup, register_on_mail, verify_on_delete,
    verify_on_insert, verify_on_pending, verify_session,
};

const SECRET: &str = "a secret for the tests";

struct Store {
    users: Vec<User>,
    pending: Vec<TempUser>,
}

impl Store {
    fn user_by_email(&self, email: &str) -> Result<Option<User>, String> {
        Ok(self.users.iter().find(|u| u.email == email).cloned())
    }

    fn pending_by_key(&self, key: &str) -> Result<Option<TempUser>, String> {
        Ok(self.pending.iter().find(|p| p._id == key).cloned())
    }
}

#[test]
fn jane_registers_confirms_logs_in_and_reads_her_profile() {
    let mut store = Store { users: Vec::new(), pending: Vec::new() };
    let mut mailed: Vec<(String, String, i32)> = Vec::new();

    // register("Jane", "jane@x.com", "pw123")
    let input = TempUser {
        _id: String::new(),
        otp: None,
        email: "jane@x.com".to_string(),
        password: "pw123".to_string(),
        name: "Jane".to_string(),
        expires_at: 0,
    };
    let found = store.user_by_email(&register_email(&input));
    let order = register_on_lookup(&found).unwrap();
    mailed.push((input.name.clone(), input.email.clone(), order.otp));
    let key = order.session_id.clone();
    let record = register_on_mail(input, order, true).unwrap();
    store.pending.push(record);
    let registered = register_on_insert(key.clone(), Ok(())).unwrap();
    assert_eq!(registered.reply.status, Status::Success);
    let session_cookie = match registered.cookie {
        CookieChange::Put(c) => c,
        _ => panic!("a cookie was expected"),
    };
    assert_eq!(session_cookie.name, "session_token");
    assert_eq!(mailed.len(), 1);
    let code = mailed[0].2.to_string();
    assert_eq!(code.len(), 6);
    assert!(code.chars().all(|c| c.is_ascii_digit()));

    // verify(correct OTP)
    let session = verify_session(Some(session_cookie.value)).unwrap();
    let waiting = store.pending_by_key(&session);
    let user = verify_on_pending(&VerifyOtpInput { otp: code }, waiting).unwrap();
    store.users.push(user);
    verify_on_insert(Ok(())).unwrap();
    store.pending.retain(|p| p._id != session);
    let confirmed = verify_on_delete(Ok(())).unwrap();
    assert_eq!(confirmed.reply.status, Status::Created);
    assert_eq!(confirmed.cookie, CookieChange::Remove("session_token".to_string()));
    assert_eq!(store.users.len(), 1);
    assert!(store.pending.is_empty());

    // login("jane@x.com", "pw123")
    let login = Login { email: "jane@x.com".to_string(), password: "pw123".to_string() };
    login_start(&login).unwrap();
    let found = store.user_by_email(&login.email);
    let logged_in = login_on_lookup_at(login, found, SECRET, 50_000).unwrap();
    assert_eq!(logged_in.reply.status, Status::Success);
    let access = match logged_in.cookie {
        CookieChange::Put(c) => c,
        _ => panic!("a cookie was expected"),
    };
    assert_eq!(access.name, "access_token");

    // GET /me with that cookie
    let user_id = validate_user_at(Some(access.value.clone()), SECRET, 50_100).unwrap();
    let loaded = Ok(store.users.iter().find(|u| u.id == Some(user_id)).cloned());
    let attached = validate_user_on_lookup(loaded).unwrap();
    let hash = attached.password.clone();
    let (status, profile) = me(attached);
    assert_eq!(status, Status::Success);
    assert_eq!(profile.name, "Jane");
    assert_eq!(profile.email, "jane@x.com");
    assert_eq!(profile.id, Some(user_id));
    assert!(!format!("{:?}", profile).contains(&hash));

    // a second registration under the same email, in another case, now conflicts
    let again = TempUser {
        _id: String::new(),
        otp: None,
        email: "JANE@X.COM".to_string(),
        password: "other".to_string(),
        name: "Jane".to_string(),
        expires_at: 0,
    };
    let found = store.user_by_email(&register_email(&again));
    assert_eq!(register_on_lookup(&found).unwrap_err().status, Status::Conflict);

    // logout clears the cookie; the token stays valid until it ends
    assert!(logout(Some(access.value.clone())).is_ok());
    assert!(validate_user_at(Some(access.value.clone()), SECRET, 53_600).is_ok());
    assert!(validate_user_at(Some(access.value), SECRET, 53_601).is_err());
}

#[test]
fn a_wrong_code_creates_no_account() {
    let waiting = TempUser {
        _id: "key-1".to_string(),
        otp: Some("123456".to_string()),
        email: "jane@x.com".to_string(),
        password: "hashed".to_string(),
        name: "Jane".to_string(),
        expires_at: 0,
    };
    let store = Store { users: Vec::new(), pending: vec![waiting] };
    let looked_up = store.pending_by_key("key-1");
    assert!(verify_on_pending(&VerifyOtpInput { otp: "654321".to_string() }, looked_up).is_err());
    let missing = store.pending_by_key("key-2");
    assert!(verify_on_pending(&VerifyOtpInput { otp: "123456".to_string() }, missing).is_err());
    assert!(store.users.is_empty());
    assert_eq!(store.pending.len(), 1);
}

#[test]
fn login_does_not_fold_case() {
    let store = Store {
        users: vec![User {
            id: None,
            name: "Jane".to_string(),
            email: "jane@x.com".to_string(),
            password: "hash".to_string(),
            role: None,
        }],
        pending: Vec::new(),
    };
    let login = Login { email: "Jane@x.com".to_string(), password: "pw123".to_string() };
    login_start(&login).unwrap();
    let found = store.user_by_email(&login.email);
    let reply = login_on_lookup_at(login, found, SECRET, 0).unwrap_err();
    assert_eq!(reply.status, Status::NotFound);
}
