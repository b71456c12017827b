//! HTTP answers as plain values: a status code and a body whose shape says
//! how it is written on the wire.
use vstd::prelude::*;
use vstd::string::*;

use crate::models::{AuthJsonResponse, FieldError, UserListing};

verus! {

pub const OK: u16 = 200;

pub const CREATED: u16 = 201;

pub const BAD_REQUEST: u16 = 400;

pub const UNAUTHORIZED: u16 = 401;

pub const FORBIDDEN: u16 = 403;

pub const NOT_FOUND: u16 = 404;

pub const CONFLICT: u16 = 409;

pub const INTERNAL_SERVER_ERROR: u16 = 500;

/// The body of an answer.
#[derive(Clone, Debug)]
pub enum ReplyBody {
    /// Plain text.
    Text(String),
    /// An HTML fragment.
    Html(String),
    /// `{"error": ..}`
    Error { error: String },
    /// `{"message": ..}`
    Message { message: String },
    /// `{"error": .., "message": ..}`
    ErrorWithMessage { error: String, message: String },
    /// `{"error": .., "fields": [..], "message": ..}`
    Conflict { error: String, fields: Vec<String>, message: String },
    /// `{"error": .., "details": ..}` with the broken validation rules.
    Validation { error: String, details: Vec<FieldError> },
    /// The JSON answer of the authentication endpoints.
    Auth(AuthJsonResponse),
    /// A JSON list of user accounts.
    Users(Vec<UserListing>),
}

/// An HTTP answer.
#[derive(Clone, Debug)]
pub struct Reply {
    pub status: u16,
    pub body: ReplyBody,
}

/// `r` has status `status` and the body `{"error": text}`.
pub open spec fn is_error_reply(r: Reply, status: u16, text: Seq<char>) -> bool {
    &&& r.status == status
    &&& r.body matches ReplyBody::Error { error }
    &&& error@ == text
}

/// `r` has status `status` and the body `{"message": text}`.
pub open spec fn is_message_reply(r: Reply, status: u16, text: Seq<char>) -> bool {
    &&& r.status == status
    &&& r.body matches ReplyBody::Message { message }
    &&& message@ == text
}

/// An answer with the body `{"error": text}`.
pub fn error_reply(status: u16, text: &str) -> (r: Reply)
    ensures
        is_error_reply(r, status, text@),
{
    Reply { status, body: ReplyBody::Error { error: String::from_str(text) } }
}

/// An answer with the body `{"message": text}`.
pub fn message_reply(status: u16, text: &str) -> (r: Reply)
    ensures
        is_message_reply(r, status, text@),
{
    Reply { status, body: ReplyBody::Message { message: String::from_str(text) } }
}

/// An error answer carries its status and the body `{"error": text}`.
pub proof fn error_reply_shape(r: Reply, status: u16, text: Seq<char>)
    requires
        is_error_reply(r, status, text),
    ensures
        r.status == status,
        r.body matches ReplyBody::Error { error } && error@ == text,
{
}

/// A message answer carries its status and the body `{"message": text}`.
pub proof fn message_reply_shape(r: Reply, status: u16, text: Seq<char>)
    requires
        is_message_reply(r, status, text),
    ensures
        r.status == status,
        r.body matches ReplyBody::Message { message } && message@ == text,
{
}

/// The status codes, by their numbers.
pub proof fn status_codes()
    ensures
        OK == 200,
        CREATED == 201,
        BAD_REQUEST == 400,
        UNAUTHORIZED == 401,
        FORBIDDEN == 403,
        NOT_FOUND == 404,
        CONFLICT == 409,
        INTERNAL_SERVER_ERROR == 500,
{
}

} // verus!
