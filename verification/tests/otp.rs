use storefront::otp::{create_otp, otp_text, OTP_MAX, OTP_MIN};

#[test]
fn codes_have_six_digits() {
    for _ in 0..2000 {
        let code = create_otp();
        assert!((OTP_MIN..=OTP_MAX).contains(&code));
        let text = otp_text(code);
        assert_eq!(text.len(), 6);
        assert!(text.chars().all(|c| c.is_ascii_digit()));
        assert_eq!(text.parse::<i32>().unwrap(), code);
    }
}

#[test]
fn codes_vary() {
    let first = create_otp();
    let mut differs = false;
    for _ in 0..200 {
        if create_otp() != first {
            differs = true;
        }
    }
    assert!(differs);
}

#[test]
fn the_bounds_are_the_six_digit_numbers() {
    assert_eq!(OTP_MIN, 100_000);
    assert_eq!(OTP_MAX, 999_999);
}

#[test]
fn a_code_is_written_in_decimal() {
    assert_eq!(otp_text(123_456), "123456");
    assert_eq!(otp_text(100_000), "100000");
    assert_eq!(otp_text(999_999), "999999");
}

#[test]
fn other_numbers_are_written_in_decimal_too() {
    assert_eq!(otp_text(0), "0");
    assert_eq!(otp_text(7), "7");
    assert_eq!(otp_text(-42), "-42");
    assert_eq!(otp_text(i32::MAX), "2147483647");
    assert_eq!(otp_text(i32::MIN), "-2147483648");
}
