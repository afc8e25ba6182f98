//! The answers the service gives, as plain values.
use vstd::prelude::*;
use crate::text::{decimal, decimal_text};

verus! {

/// The `"status"` member of a JSON answer: a number, or the code as text.
pub enum StatusField {
    Number(u16),
    Text(String),
}

pub enum ReplyBody {
    Empty,
    /// A plain-text body.
    Text(String),
    /// `{"status": <status>, "message": <message>}`
    Message { status: StatusField, message: String },
    /// `{"status": 200, "token": <token>}`
    Token { token: String },
}

/// An HTTP answer: status code, body, and the `Location` and `Set-Cookie`
/// headers when present.
pub struct Reply {
    pub status: u16,
    pub body: ReplyBody,
    pub location: Option<String>,
    pub set_cookie: Option<String>,
}

/// `r` is the JSON answer `{"status": code, "message": text}` with HTTP status `code`.
pub open spec fn is_json_message(r: Reply, code: u16, text: Seq<char>) -> bool {
    &&& r.status == code
    &&& r.location is None
    &&& r.set_cookie is None
    &&& match r.body {
        ReplyBody::Message { status: StatusField::Number(n), message } => n == code && message@
            == text,
        _ => false,
    }
}

/// `r` is the JSON answer `{"status": "<code>", "message": text}`, the status
/// written as decimal text, with HTTP status `code`.
pub open spec fn is_json_text_message(r: Reply, code: u16, text: Seq<char>) -> bool {
    &&& r.status == code
    &&& r.location is None
    &&& r.set_cookie is None
    &&& match r.body {
        ReplyBody::Message { status: StatusField::Text(t), message } => t@ == decimal(
            code as nat,
        ) && message@ == text,
        _ => false,
    }
}

/// `r` is a plain-text answer with HTTP status `code`.
pub open spec fn is_plain_text(r: Reply, code: u16, text: Seq<char>) -> bool {
    &&& r.status == code
    &&& r.location is None
    &&& r.set_cookie is None
    &&& match r.body {
        ReplyBody::Text(t) => t@ == text,
        _ => false,
    }
}

/// `r` is the generic failure answer.
pub open spec fn is_internal_server_error(r: Reply) -> bool {
    is_json_message(r, 500, "Internal server error"@)
}

/// `{"status": code, "message": text}` with HTTP status `code`.
pub fn json_message(code: u16, text: &str) -> (r: Reply)
    ensures
        is_json_message(r, code, text@),
{
    Reply {
        status: code,
        body: ReplyBody::Message { status: StatusField::Number(code), message: text.to_owned() },
        location: None,
        set_cookie: None,
    }
}

/// `{"status": "<code>", "message": text}` with HTTP status `code`.
pub fn json_text_message(code: u16, text: String) -> (r: Reply)
    ensures
        is_json_text_message(r, code, text@),
{
    Reply {
        status: code,
        body: ReplyBody::Message {
            status: StatusField::Text(decimal_text(code as u64)),
            message: text,
        },
        location: None,
        set_cookie: None,
    }
}

/// A plain-text answer.
pub fn plain_text(code: u16, text: &str) -> (r: Reply)
    ensures
        is_plain_text(r, code, text@),
{
    Reply {
        status: code,
        body: ReplyBody::Text(text.to_owned()),
        location: None,
        set_cookie: None,
    }
}

/// The answer to every failure of the service's own machinery:
/// `500 {"status": 500, "message": "Internal server error"}`.
pub fn throw_internal_server_error() -> (r: Reply)
    ensures
        is_internal_server_error(r),
{
    json_message(500, "Internal server error")
}

/// A setting the handler cannot go on without: its value, or the generic
/// failure answer when it is missing.
pub fn required_setting(value: Option<String>) -> (r: Result<String, Reply>)
    ensures
        match value {
            Some(v) => r matches Ok(s) && s@ == v@,
            None => r matches Err(e) && is_internal_server_error(e),
        },
{
    match value {
        Some(v) => Ok(v),
        None => Err(throw_internal_server_error()),
    }
}

} // verus!
