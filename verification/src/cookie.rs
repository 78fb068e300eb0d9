//! Cookies, and the replies that set or remove one.

use crate::status::{Reply, ReplyView};
use vstd::prelude::*;

verus! {

/// A cookie as the backend sets it.
#[derive(Clone, Debug, PartialEq, Eq)]
pub struct Cookie {
    pub name: String,
    pub value: String,
    /// Hidden from scripts.
    pub http_only: bool,
    /// Sent with same-site requests only.
    pub same_site_strict: bool,
    /// Seconds until the browser drops it; `None` for a session cookie.
    pub max_age: Option<u64>,
}

/// A `Cookie` as plain values.
pub struct CookieView {
    pub name: Seq<char>,
    pub value: Seq<char>,
    pub http_only: bool,
    pub same_site_strict: bool,
    pub max_age: Option<u64>,
}

impl View for Cookie {
    type V = CookieView;

    open spec fn view(&self) -> CookieView {
        CookieView {
            name: self.name@,
            value: self.value@,
            http_only: self.http_only,
            same_site_strict: self.same_site_strict,
            max_age: self.max_age,
        }
    }
}

/// What a reply does to the client's cookies.
#[derive(Clone, Debug, PartialEq, Eq)]
pub enum CookieChange {
    /// Nothing.
    Keep,
    /// Sets this cookie.
    Put(Cookie),
    /// Removes the cookie of this name.
    Remove(String),
}

/// A `CookieChange` as plain values.
pub enum CookieChangeView {
    Keep,
    Put(CookieView),
    Remove(Seq<char>),
}

impl View for CookieChange {
    type V = CookieChangeView;

    open spec fn view(&self) -> CookieChangeView {
        match self {
            CookieChange::Keep => CookieChangeView::Keep,
            CookieChange::Put(c) => CookieChangeView::Put(c@),
            CookieChange::Remove(n) => CookieChangeView::Remove(n@),
        }
    }
}

/// A reply together with what it does to the cookies.
#[derive(Debug)]
pub struct Response {
    pub reply: Reply,
    pub cookie: CookieChange,
}

/// A `Response` as plain values.
pub struct ResponseView {
    pub reply: ReplyView,
    pub cookie: CookieChangeView,
}

impl View for Response {
    type V = ResponseView;

    open spec fn view(&self) -> ResponseView {
        ResponseView { reply: self.reply@, cookie: self.cookie@ }
    }
}

/// The name of the cookie that carries the session token.
pub open spec fn access_cookie_name() -> Seq<char> {
    "access_token"@
}

/// The name of the cookie that carries the key of a waiting registration.
pub open spec fn session_cookie_name() -> Seq<char> {
    "session_token"@
}

/// The cookie that carries a session token: hidden from scripts, same-site, dropped after
/// `max_age` seconds.
pub open spec fn access_cookie(token: Seq<char>, max_age: u64) -> CookieView {
    CookieView {
        name: access_cookie_name(),
        value: token,
        http_only: true,
        same_site_strict: true,
        max_age: Some(max_age),
    }
}

/// The cookie that carries the key of a waiting registration: hidden from scripts,
/// same-site, kept for the browser session.
pub open spec fn session_cookie(key: Seq<char>) -> CookieView {
    CookieView {
        name: session_cookie_name(),
        value: key,
        http_only: true,
        same_site_strict: true,
        max_age: None,
    }
}

impl Cookie {
    /// The cookie for a session token.
    pub fn access(token: String, max_age: u64) -> (c: Cookie)
        ensures
            c@ == access_cookie(token@, max_age),
    {
        Cookie {
            name: String::from_str("access_token"),
            value: token,
            http_only: true,
            same_site_strict: true,
            max_age: Some(max_age),
        }
    }

    /// The cookie for the key of a waiting registration.
    pub fn session(key: String) -> (c: Cookie)
        ensures
            c@ == session_cookie(key@),
    {
        Cookie {
            name: String::from_str("session_token"),
            value: key,
            http_only: true,
            same_site_strict: true,
            max_age: None,
        }
    }
}

} // verus!
