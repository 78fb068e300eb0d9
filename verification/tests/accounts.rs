use storefront::config::Settings;
use storefront::models::{Login, UpdateUser, User, VerifyOtpInput};
use storefront::object_id::ObjectId;
use storefront::status::{Body, Reply, Status};
use storefront::user_service::{
    account_id, avatar_missing, avatar_refused, delete_user_on_result, get_all_users_on_result,
    get_user_by_id_on_lookup, update_user_fields, update_user_id, update_user_on_result,
};

fn jane() -> User {
    User {
        id: Some(ObjectId { bytes: [9; 12] }),
        name: "Jane".to_string(),
        email: "jane@x.com".to_string(),
        password: "hash".to_string(),
        role: None,
    }
}

fn text_of(reply: &Reply) -> &str {
    match &reply.body {
        Body::Text(t) => t,
        _ => panic!("a text body was expected"),
    }
}

#[test]
fn an_account_identifier_is_read_from_the_path() {
    assert_eq!(
        account_id("090909090909090909090909".to_string()).unwrap(),
        ObjectId { bytes: [9; 12] }
    );
    let reply = account_id("nine".to_string()).unwrap_err();
    assert_eq!((reply.status, text_of(&reply)), (Status::BadRequest, "Invalid Id"));
}

#[test]
fn the_list_of_accounts_is_handed_on() {
    assert_eq!(get_all_users_on_result(Ok(vec![jane()])).unwrap(), vec![jane()]);
    assert!(get_all_users_on_result(Ok(Vec::new())).unwrap().is_empty());
    let reply = get_all_users_on_result(Err("cursor died".to_string())).unwrap_err();
    assert_eq!((reply.status, text_of(&reply)), (Status::ServerError, "cursor died"));
}

#[test]
fn one_account_is_shown_or_missing() {
    assert_eq!(get_user_by_id_on_lookup(Ok(Some(jane()))).unwrap(), jane());
    let missing = get_user_by_id_on_lookup(Ok(None)).unwrap_err();
    assert_eq!((missing.status, text_of(&missing)), (Status::NotFound, "User not found"));
    let failed = get_user_by_id_on_lookup(Err("down".to_string())).unwrap_err();
    assert_eq!((failed.status, text_of(&failed)), (Status::ServerError, "down"));
}

#[test]
fn a_change_wants_a_well_formed_identifier() {
    assert!(update_user_id("090909090909090909090909".to_string()).is_ok());
    let reply = update_user_id("nine".to_string()).unwrap_err();
    assert_eq!(reply.status, Status::BadRequest);
    assert!(matches!(reply.body, Body::Empty));
}

#[test]
fn a_change_sets_name_and_age() {
    let fields = update_user_fields(UpdateUser { name: "Janet".to_string(), age: 255 });
    assert_eq!(fields, ("Janet".to_string(), 255));
    assert_eq!(update_user_fields(UpdateUser { name: String::new(), age: 0 }).1, 0);
}

#[test]
fn a_change_comes_to_a_status() {
    assert_eq!(update_user_on_result(Ok(1)), Ok(Status::NoContent));
    assert_eq!(update_user_on_result(Ok(u64::MAX)), Ok(Status::NoContent));
    assert_eq!(update_user_on_result(Ok(0)), Err(Status::NotFound));
    assert_eq!(update_user_on_result(Err("down".to_string())), Err(Status::ServerError));
}

#[test]
fn a_removal_is_confirmed() {
    let reply = delete_user_on_result(Ok(())).unwrap();
    assert_eq!(reply.status, Status::Success);
    assert!(matches!(&reply.body, Body::Json(t) if t == "user deleted success"));
    let failed = delete_user_on_result(Err("down".to_string())).unwrap_err();
    assert_eq!((failed.status, text_of(&failed)), (Status::ServerError, "down"));
}

#[test]
fn the_avatar_replies_are_fixed() {
    let refused = avatar_refused();
    assert_eq!((refused.status, text_of(&refused)), (Status::ServerError, "falied to upload avatar"));
    let missing = avatar_missing();
    assert_eq!((missing.status, text_of(&missing)), (Status::ServerError, "Server Error"));
}

#[test]
fn settings_start_at_their_defaults() {
    let settings = Settings::new("secret".to_string());
    assert_eq!(settings.secret, "secret");
    assert!(!settings.enforce_pending_expiry);
    let strict = settings.clone().with_pending_expiry(true);
    assert_eq!(strict.secret, "secret");
    assert!(strict.enforce_pending_expiry);
    assert_eq!(strict.with_pending_expiry(false), settings);
}

#[test]
fn inputs_are_plain_values() {
    let login = Login { email: "jane@x.com".to_string(), password: "pw123".to_string() };
    assert_eq!(login.clone(), login);
    let code = VerifyOtpInput { otp: "123456".to_string() };
    assert_eq!(code.otp, "123456");
}
