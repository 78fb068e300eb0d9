//! Document identifiers: twelve bytes, written as twenty-four hexadecimal digits.

use crate::status::Status;
use vstd::prelude::*;

verus! {

/// The identifier of a stored document.
#[derive(Clone, Copy, Debug, PartialEq, Eq, Hash)]
pub struct ObjectId {
    pub bytes: [u8; 12],
}

impl View for ObjectId {
    type V = Seq<u8>;

    open spec fn view(&self) -> Seq<u8> {
        self.bytes@
    }
}

/// The value of a hexadecimal digit, in either case.
pub open spec fn hex_value(c: char) -> Option<int> {
    if '0' <= c <= '9' {
        Some(c as int - '0' as int)
    } else if 'a' <= c <= 'f' {
        Some(c as int - 'a' as int + 10)
    } else if 'A' <= c <= 'F' {
        Some(c as int - 'A' as int + 10)
    } else {
        None
    }
}

/// Whether a text names an identifier: exactly twenty-four hexadecimal digits.
pub open spec fn is_object_id_text(text: Seq<char>) -> bool {
    &&& text.len() == 24
    &&& forall|i: int| 0 <= i < 24 ==> (#[trigger] hex_value(text[i])) is Some
}

/// The twelve bytes that twenty-four hexadecimal digits spell, the high digit first.
pub open spec fn object_id_bytes(text: Seq<char>) -> Seq<u8> {
    Seq::new(
        12,
        |i: int| (16 * hex_value(text[2 * i]).unwrap() + hex_value(text[2 * i + 1]).unwrap()) as u8,
    )
}

/// The message that the BSON library gives for a text that names no identifier.
pub uninterp spec fn parse_failure_text(text: Seq<char>) -> Seq<char>;

/// `bson::oid::ObjectId::parse_str`, with the failure rendered by its `Display`.
///
/// Trusted: the call succeeds exactly on twenty-four hexadecimal digits (both cases are
/// read), each pair giving one byte with the high digit first; on any other text it fails,
/// and the failure's message depends on the text alone.
#[verifier::external_body]
pub(crate) fn parse_hex(text: &str) -> (r: Result<ObjectId, String>)
    ensures
        match r {
            Ok(id) => is_object_id_text(text@) && id@ == object_id_bytes(text@),
            Err(message) => !is_object_id_text(text@) && message@ == parse_failure_text(text@),
        },
{
    match bson::oid::ObjectId::parse_str(text) {
        Ok(id) => Ok(ObjectId { bytes: id.bytes() }),
        Err(e) => Err(e.to_string()),
    }
}

/// `bson::oid::ObjectId::new`: a new identifier made of the time, a per-process random
/// value and a counter. Nothing is promised of its bytes. The call does not return where
/// the system clock stands before 1970 or after 2106.
#[verifier::external_body]
pub(crate) fn fresh_object_id() -> ObjectId {
    ObjectId { bytes: bson::oid::ObjectId::new().bytes() }
}

/// Reads an identifier from a path segment.
///
/// Any text but twenty-four hexadecimal digits is a bad request with the message
/// `Invalid Id`.
pub fn parse_object_id(id: String) -> (r: Result<ObjectId, (Status, String)>)
    ensures
        match r {
            Ok(oid) => is_object_id_text(id@) && oid@ == object_id_bytes(id@),
            Err(e) => !is_object_id_text(id@) && e.0 == Status::BadRequest && e.1@
                == "Invalid Id"@,
        },
{
    match parse_hex(id.as_str()) {
        Ok(oid) => Ok(oid),
        Err(_) => Err((Status::BadRequest, String::from_str("Invalid Id"))),
    }
}

} // verus!
