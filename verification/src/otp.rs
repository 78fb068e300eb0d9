//! One-time codes: six decimal digits.

use rand::Rng;
use vstd::prelude::*;

verus! {

/// The smallest one-time code.
pub const OTP_MIN: i32 = 100_000;

/// The largest one-time code.
pub const OTP_MAX: i32 = 999_999;

/// Whether a number is a one-time code: it has exactly six decimal digits.
pub open spec fn is_otp(code: int) -> bool {
    OTP_MIN <= code <= OTP_MAX
}

/// `rand::Rng::gen_range` on the thread's generator, over `low..=high`.
///
/// Trusted: the number lies in the range. Which one it is, is left to chance.
#[verifier::external_body]
fn random_between(low: i32, high: i32) -> (n: i32)
    requires
        low <= high,
    ensures
        low <= n <= high,
{
    rand::thread_rng().gen_range(low..=high)
}

/// Draws a one-time code.
pub fn create_otp() -> (code: i32)
    ensures
        is_otp(code as int),
{
    random_between(OTP_MIN, OTP_MAX)
}

/// The character of a decimal digit.
pub open spec fn digit_char(d: int) -> char {
    if d == 0 {
        '0'
    } else if d == 1 {
        '1'
    } else if d == 2 {
        '2'
    } else if d == 3 {
        '3'
    } else if d == 4 {
        '4'
    } else if d == 5 {
        '5'
    } else if d == 6 {
        '6'
    } else if d == 7 {
        '7'
    } else if d == 8 {
        '8'
    } else {
        '9'
    }
}

/// The decimal digits of a natural number, without leading zeros.
pub open spec fn decimal(n: nat) -> Seq<char>
    decreases n,
{
    if n < 10 {
        seq![digit_char(n as int)]
    } else {
        decimal(n / 10).push(digit_char((n % 10) as int))
    }
}

/// A whole number in decimal: a minus sign before the digits of a negative one.
pub open spec fn signed_decimal(n: int) -> Seq<char> {
    if n < 0 {
        seq!['-'] + decimal((-n) as nat)
    } else {
        decimal(n as nat)
    }
}

/// `ToString::to_string` on an `i32`.
///
/// Trusted: the text is the number in decimal digits, without leading zeros, after a
/// minus sign where it is negative.
#[verifier::external_body]
fn decimal_text(n: i32) -> (text: String)
    ensures
        text@ == signed_decimal(n as int),
{
    n.to_string()
}

/// Whether a character is a decimal digit.
pub open spec fn is_digit(c: char) -> bool {
    '0' <= c <= '9'
}

/// Whether a text is a one-time code as it is mailed and stored: six decimal digits.
pub open spec fn is_otp_text(text: Seq<char>) -> bool {
    &&& text.len() == 6
    &&& forall|i: int| 0 <= i < 6 ==> is_digit(#[trigger] text[i])
}

/// A one-time code written in decimal has six digits.
pub proof fn lemma_otp_has_six_digits(code: int)
    requires
        is_otp(code),
    ensures
        is_otp_text(decimal(code as nat)),
{
    let n = code as nat;
    reveal_with_fuel(decimal, 7);
    let d5 = n / 100000;
    assert(1 <= d5 < 10);
    assert(decimal(n).len() == 6);
    assert forall|i: int| 0 <= i < 6 implies is_digit(#[trigger] decimal(n)[i]) by {
        assert(forall|d: int| is_digit(#[trigger] digit_char(d)));
    }
}

/// The text of a code, as it is mailed and stored: its decimal digits, which are six for a
/// one-time code.
pub fn otp_text(code: i32) -> (text: String)
    ensures
        text@ == signed_decimal(code as int),
        is_otp(code as int) ==> is_otp_text(text@),
{
    proof {
        if is_otp(code as int) {
            lemma_otp_has_six_digits(code as int);
        }
    }
    decimal_text(code)
}

} // verus!
