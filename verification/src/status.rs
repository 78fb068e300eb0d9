//! Response statuses, bodies and cookie changes: what every handler hands back.

use vstd::prelude::*;

verus! {

/// The HTTP statuses that the backend answers with.
#[derive(Clone, Copy, Debug, PartialEq, Eq, Structural)]
pub enum Status {
    Success,
    Created,
    NoContent,
    BadRequest,
    Unauthorized,
    NotFound,
    Conflict,
    ServerError,
}

impl Status {
    /// The numeric code of a status.
    pub open spec fn code_spec(self) -> u16 {
        match self {
            Status::Success => 200,
            Status::Created => 201,
            Status::NoContent => 204,
            Status::BadRequest => 400,
            Status::Unauthorized => 401,
            Status::NotFound => 404,
            Status::Conflict => 409,
            Status::ServerError => 500,
        }
    }

    /// The numeric code that goes on the wire.
    pub fn code(&self) -> (c: u16)
        ensures
            c == self.code_spec(),
    {
        match self {
            Status::Success => 200,
            Status::Created => 201,
            Status::NoContent => 204,
            Status::BadRequest => 400,
            Status::Unauthorized => 401,
            Status::NotFound => 404,
            Status::Conflict => 409,
            Status::ServerError => 500,
        }
    }
}

/// The JSON object that the session gate sends with a refusal.
#[derive(Debug)]
pub struct ErrorResponse {
    pub status: &'static str,
    pub message: String,
}

/// An `ErrorResponse` as plain text.
pub struct ErrorResponseView {
    pub status: Seq<char>,
    pub message: Seq<char>,
}

impl View for ErrorResponse {
    type V = ErrorResponseView;

    open spec fn view(&self) -> ErrorResponseView {
        ErrorResponseView { status: self.status@, message: self.message@ }
    }
}

/// What a reply carries besides its status.
#[derive(Debug)]
pub enum Body {
    /// Nothing.
    Empty,
    /// Plain text.
    Text(String),
    /// A JSON string.
    Json(String),
    /// A JSON failure object.
    Failure(ErrorResponse),
}

/// A `Body` as plain text.
pub enum BodyView {
    Empty,
    Text(Seq<char>),
    Json(Seq<char>),
    Failure(ErrorResponseView),
}

impl View for Body {
    type V = BodyView;

    open spec fn view(&self) -> BodyView {
        match self {
            Body::Empty => BodyView::Empty,
            Body::Text(t) => BodyView::Text(t@),
            Body::Json(t) => BodyView::Json(t@),
            Body::Failure(e) => BodyView::Failure(e@),
        }
    }
}

/// A status with its body.
#[derive(Debug)]
pub struct Reply {
    pub status: Status,
    pub body: Body,
}

/// A `Reply` as plain values.
pub struct ReplyView {
    pub status: Status,
    pub body: BodyView,
}

impl View for Reply {
    type V = ReplyView;

    open spec fn view(&self) -> ReplyView {
        ReplyView { status: self.status, body: self.body@ }
    }
}

/// The reply with this status and no body.
pub open spec fn bare(status: Status) -> ReplyView {
    ReplyView { status, body: BodyView::Empty }
}

/// The reply with this status and a plain text.
pub open spec fn text(status: Status, message: Seq<char>) -> ReplyView {
    ReplyView { status, body: BodyView::Text(message) }
}

/// The reply with this status and a JSON string.
pub open spec fn json(status: Status, message: Seq<char>) -> ReplyView {
    ReplyView { status, body: BodyView::Json(message) }
}

/// The reply with this status and the failure object `{"status": "fail", "message": ..}`.
pub open spec fn failure(status: Status, message: Seq<char>) -> ReplyView {
    ReplyView {
        status,
        body: BodyView::Failure(ErrorResponseView { status: "fail"@, message }),
    }
}

/// An optional reply as plain values.
pub open spec fn reply_view(reply: Option<Reply>) -> Option<ReplyView> {
    match reply {
        Some(r) => Some(r@),
        None => None,
    }
}

impl Reply {
    /// A reply without a body.
    pub fn bare(status: Status) -> (r: Reply)
        ensures
            r@ == bare(status),
    {
        Reply { status, body: Body::Empty }
    }

    /// A reply with a plain text.
    pub fn text(status: Status, message: &str) -> (r: Reply)
        ensures
            r@ == text(status, message@),
    {
        Reply { status, body: Body::Text(String::from_str(message)) }
    }

    /// A reply with a text that the caller owns.
    pub fn owned_text(status: Status, message: String) -> (r: Reply)
        ensures
            r@ == text(status, message@),
    {
        Reply { status, body: Body::Text(message) }
    }

    /// A reply with a JSON string.
    pub fn json(status: Status, message: &str) -> (r: Reply)
        ensures
            r@ == json(status, message@),
    {
        Reply { status, body: Body::Json(String::from_str(message)) }
    }

    /// A reply with the failure object, its `status` field being `"fail"`.
    pub fn failure(status: Status, message: &str) -> (r: Reply)
        ensures
            r@ == failure(status, message@),
    {
        Reply {
            status,
            body: Body::Failure(
                ErrorResponse { status: "fail", message: String::from_str(message) },
            ),
        }
    }
}

} // verus!
