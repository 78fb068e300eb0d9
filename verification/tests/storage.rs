use storefront::s3::{object_key, object_url, upload_single_on_put, upload_single_place, StoredObject};
use storefront::send_email::{envelope, recipient, send_mail_outcome};
use storefront::status::Status;

#[test]
fn the_key_joins_unique_part_and_file_name() {
    assert_eq!(object_key("abc", "pic.png"), "upload/abc.pic.png");
    assert_eq!(object_key("", ""), "upload/.");
}

#[test]
fn the_address_names_bucket_and_region() {
    assert_eq!(
        object_url("shop", "eu-west-1", "upload/abc.pic.png"),
        "https://shop.s3.eu-west-1.amazonaws.com/upload/abc.pic.png"
    );
}

#[test]
fn a_place_has_a_random_key() {
    let a = upload_single_place(&"pic.png".to_string(), "shop", "eu-west-1");
    let b = upload_single_place(&"pic.png".to_string(), "shop", "eu-west-1");
    assert!(a.key.starts_with("upload/"));
    assert!(a.key.ends_with(".pic.png"));
    assert_eq!(a.key.len(), "upload/".len() + 36 + ".pic.png".len());
    assert_eq!(a.url, format!("https://shop.s3.eu-west-1.amazonaws.com/{}", a.key));
    assert_ne!(a.key, b.key);
}

#[test]
fn an_upload_gives_its_address() {
    let place = StoredObject { key: "upload/k.f".to_string(), url: "https://u".to_string() };
    assert_eq!(upload_single_on_put(place.clone(), Ok(())), Ok("https://u".to_string()));
    assert_eq!(
        upload_single_on_put(place, Err("denied".to_string())),
        Err("Failed to upload to s3".to_string())
    );
}

#[test]
fn the_recipient_is_a_mailbox() {
    assert_eq!(recipient("Jane", "jane@x.com"), "Jane <jane@x.com>");
    assert_eq!(recipient("", ""), " <>");
}

#[test]
fn the_envelope_is_fixed_but_for_the_recipient() {
    let head = envelope("Jane", "jane@x.com");
    assert_eq!(head.from, "Clicon.io <no-reply@clicon.io>");
    assert_eq!(head.reply_to, "Support <support@clicon.io>");
    assert_eq!(head.to, "Jane <jane@x.com>");
    assert_eq!(head.subject, "Your OTP Code - Clicon.io");
}

#[test]
fn a_mail_that_the_relay_refused_is_a_server_error() {
    assert_eq!(send_mail_outcome(Ok(())), Ok(true));
    assert_eq!(send_mail_outcome(Err("no route".to_string())), Err(Status::ServerError));
}
