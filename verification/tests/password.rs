use storefront::password::{hash_password, verify_password, HASH_LEN};

#[test]
fn a_hash_matches_its_password() {
    let hashed = hash_password("pw123".to_string()).unwrap();
    assert_ne!(hashed, "pw123");
    assert_eq!(hashed.len(), 60);
    assert_eq!(hashed.len(), HASH_LEN);
    assert!(hashed.starts_with("$2b$12$"));
    assert!(verify_password("pw123".to_string(), &hashed).unwrap());
}

#[test]
fn a_hash_does_not_match_another_password() {
    let hashed = hash_password("pw123".to_string()).unwrap();
    assert!(!verify_password("pw124".to_string(), &hashed).unwrap());
}

#[test]
fn two_hashes_of_one_password_differ() {
    let a = hash_password("same".to_string()).unwrap();
    let b = hash_password("same".to_string()).unwrap();
    assert_ne!(a, b);
}

#[test]
fn a_known_hash_is_checked() {
    let hashed = "$2y$05$bvIG6Nmid91Mu9RcmmWZfO5HJIMCT8riNW0hEp8f6/FuA2/mHZFpe";
    assert!(verify_password("password".to_string(), hashed).unwrap());
    assert!(!verify_password("Password".to_string(), hashed).unwrap());
}

#[test]
fn a_text_that_is_no_hash_is_an_error() {
    assert!(verify_password("pw123".to_string(), "not a hash").is_err());
    assert!(verify_password("pw123".to_string(), "").is_err());
}

#[test]
fn the_empty_password_can_be_hashed() {
    let hashed = hash_password(String::new()).unwrap();
    assert_eq!(hashed.len(), 60);
    assert!(hashed.starts_with("$2b$12$"));
    assert!(verify_password(String::new(), &hashed).unwrap());
}
