//! The service's errors and the answer each one is given.
use vstd::prelude::*;
use vstd::string::*;

use crate::reply::{
    error_reply, is_error_reply, Reply, ReplyBody, BAD_REQUEST, CONFLICT, FORBIDDEN,
    INTERNAL_SERVER_ERROR, NOT_FOUND, UNAUTHORIZED,
};

verus! {

/// A failed database operation: either the query matched no row, or it failed
/// for another reason, described by the database driver's message.
#[derive(Clone, Debug)]
pub enum DbError {
    NotFound,
    Failed(String),
}

/// Everything a request can fail with.
#[derive(Clone, Debug)]
pub enum AppError {
    Database(DbError),
    UserNotFound,
    InternalServerError,
    InvalidId,
    /// The unique fields whose values are already taken.
    Conflict(Vec<String>),
    InvalidCredentials,
    Unauthorized,
    Restricted,
}

/// The status code answered for an error.
pub open spec fn error_status(e: AppError) -> u16 {
    match e {
        AppError::Database(DbError::NotFound) => NOT_FOUND,
        AppError::Database(_) => INTERNAL_SERVER_ERROR,
        AppError::UserNotFound => NOT_FOUND,
        AppError::InternalServerError => INTERNAL_SERVER_ERROR,
        AppError::InvalidId => BAD_REQUEST,
        AppError::Conflict(_) => CONFLICT,
        AppError::InvalidCredentials => UNAUTHORIZED,
        AppError::Unauthorized => UNAUTHORIZED,
        AppError::Restricted => FORBIDDEN,
    }
}

/// The text of the `error` field answered for every error but a conflict.
pub open spec fn error_text(e: AppError) -> Seq<char> {
    match e {
        AppError::Database(DbError::NotFound) => "Resource not found"@,
        AppError::Database(_) => "Internal database error"@,
        AppError::UserNotFound => "User not found"@,
        AppError::InternalServerError => "Internal server error"@,
        AppError::InvalidId => "Invalid ID format"@,
        AppError::Conflict(_) => "Conflict"@,
        AppError::InvalidCredentials => "Invalid credentials"@,
        AppError::Unauthorized => "Unauthorized"@,
        AppError::Restricted => "Restricted"@,
    }
}

/// `r` is the answer given for `e`: a conflict lists the taken fields under
/// `{"error": "Conflict", "fields": .., "message": ..}`; every other error is
/// `{"error": text}` with its own status and text.
pub open spec fn is_answer_to(e: AppError, r: Reply) -> bool {
    match e {
        AppError::Conflict(taken) => {
            &&& r.status == CONFLICT
            &&& r.body matches ReplyBody::Conflict { error, fields, message }
            &&& error@ == "Conflict"@
            &&& fields == taken
            &&& message@ == "These field's value are already in use"@
        },
        _ => is_error_reply(r, error_status(e), error_text(e)),
    }
}

/// The texts of a list of strings.
pub open spec fn texts(v: Seq<String>) -> Seq<Seq<char>> {
    v.map_values(|s: String| s@)
}

/// The human-readable description of an error.
pub open spec fn error_message(e: AppError) -> Seq<char> {
    match e {
        AppError::Database(_) => "Database execution error"@,
        AppError::UserNotFound => "User not found"@,
        AppError::InternalServerError => "Internal server error"@,
        AppError::InvalidId => "Invalid UUID format"@,
        AppError::Conflict(fields) => "Conflict on fields: "@ + debug_list(texts(fields@)),
        AppError::InvalidCredentials => "Invalid credentials provided"@,
        AppError::Unauthorized => "Unauthorized"@,
        AppError::Restricted => "Restricted"@,
    }
}

/// What `Debug` writes for a list of strings: the list in square brackets,
/// each string quoted and escaped, separated by `", "`.
pub uninterp spec fn debug_list(names: Seq<Seq<char>>) -> Seq<char>;

/// Writes a list of field names through `Debug` (`format!("{:?}", ..)`). The
/// text is a function of the names alone and is named `debug_list`.
#[verifier::external_body]
fn debug_names(fields: &Vec<String>) -> (s: String)
    ensures
        s@ == debug_list(texts(fields@)),
{
    format!("{:?}", fields)
}

impl AppError {
    /// The human-readable description of the error.
    pub fn message(&self) -> (s: String)
        ensures
            s@ == error_message(*self),
    {
        match self {
            AppError::Database(_) => String::from_str("Database execution error"),
            AppError::UserNotFound => String::from_str("User not found"),
            AppError::InternalServerError => String::from_str("Internal server error"),
            AppError::InvalidId => String::from_str("Invalid UUID format"),
            AppError::Conflict(fields) => {
                let list = debug_names(fields);
                String::from_str("Conflict on fields: ").concat(list.as_str())
            },
            AppError::InvalidCredentials => String::from_str("Invalid credentials provided"),
            AppError::Unauthorized => String::from_str("Unauthorized"),
            AppError::Restricted => String::from_str("Restricted"),
        }
    }

    /// The answer given to a request that failed with this error.
    pub fn into_response(self) -> (r: Reply)
        ensures
            is_answer_to(self, r),
            r.status == error_status(self),
    {
        match self {
            AppError::Database(DbError::NotFound) => error_reply(NOT_FOUND, "Resource not found"),
            AppError::Conflict(fields) => Reply {
                status: CONFLICT,
                body: ReplyBody::Conflict {
                    error: String::from_str("Conflict"),
                    fields,
                    message: String::from_str("These field's value are already in use"),
                },
            },
            AppError::Database(_) => error_reply(INTERNAL_SERVER_ERROR, "Internal database error"),
            AppError::UserNotFound => error_reply(NOT_FOUND, "User not found"),
            AppError::InternalServerError => error_reply(
                INTERNAL_SERVER_ERROR,
                "Internal server error",
            ),
            AppError::InvalidId => error_reply(BAD_REQUEST, "Invalid ID format"),
            AppError::InvalidCredentials => error_reply(UNAUTHORIZED, "Invalid credentials"),
            AppError::Unauthorized => error_reply(UNAUTHORIZED, "Unauthorized"),
            AppError::Restricted => error_reply(FORBIDDEN, "Restricted"),
        }
    }
}

/// The answer to each error: a missing row is `404 Resource not found`,
/// another database failure `500 Internal database error`, a missing user
/// `404 User not found`, an internal error `500 Internal server error`, a bad
/// identifier `400 Invalid ID format`, wrong credentials `401 Invalid
/// credentials`, an unauthenticated request `401 Unauthorized`, a refused one
/// `403 Restricted`, each as `{"error": text}`; a conflict is `409` with
/// `{"error": "Conflict", "fields": .., "message": "These field's value are
/// already in use"}` listing exactly the conflicting fields.
pub proof fn error_answers(e: AppError, r: Reply)
    requires
        is_answer_to(e, r),
    ensures
        e matches AppError::Database(DbError::NotFound) ==> is_error_reply(r, 404, "Resource not found"@),
        e matches AppError::Database(DbError::Failed(_)) ==> is_error_reply(
            r,
            500,
            "Internal database error"@,
        ),
        e is UserNotFound ==> is_error_reply(r, 404, "User not found"@),
        e is InternalServerError ==> is_error_reply(r, 500, "Internal server error"@),
        e is InvalidId ==> is_error_reply(r, 400, "Invalid ID format"@),
        e is InvalidCredentials ==> is_error_reply(r, 401, "Invalid credentials"@),
        e is Unauthorized ==> is_error_reply(r, 401, "Unauthorized"@),
        e is Restricted ==> is_error_reply(r, 403, "Restricted"@),
        e matches AppError::Conflict(taken) ==> (r.status == 409 && (r.body matches ReplyBody::Conflict {
            error,
            fields,
            message,
        } && error@ == "Conflict"@ && fields == taken && message@
            == "These field's value are already in use"@)),
{
}

/// The status code of each error, as answered.
pub proof fn error_statuses(e: AppError)
    ensures
        e matches AppError::Database(DbError::NotFound) ==> error_status(e) == 404,
        e matches AppError::Database(DbError::Failed(_)) ==> error_status(e) == 500,
        e is UserNotFound ==> error_status(e) == 404,
        e is InternalServerError ==> error_status(e) == 500,
        e is InvalidId ==> error_status(e) == 400,
        e is Conflict ==> error_status(e) == 409,
        e is InvalidCredentials ==> error_status(e) == 401,
        e is Unauthorized ==> error_status(e) == 401,
        e is Restricted ==> error_status(e) == 403,
{
}

/// The description of each error: the conflict names the fields as `Debug`
/// writes the list.
pub proof fn error_messages(e: AppError)
    ensures
        e is Database ==> error_message(e) == "Database execution error"@,
        e is UserNotFound ==> error_message(e) == "User not found"@,
        e is InternalServerError ==> error_message(e) == "Internal server error"@,
        e is InvalidId ==> error_message(e) == "Invalid UUID format"@,
        e matches AppError::Conflict(fields) ==> error_message(e) == "Conflict on fields: "@
            + debug_list(texts(fields@)),
        e is InvalidCredentials ==> error_message(e) == "Invalid credentials provided"@,
        e is Unauthorized ==> error_message(e) == "Unauthorized"@,
        e is Restricted ==> error_message(e) == "Restricted"@,
{
}

#[verifier::external_type_specification]
#[verifier::external_body]
pub struct ExAnyhowError(anyhow::Error);

impl vstd::std_specs::convert::FromSpecImpl<anyhow::Error> for AppError {
    open spec fn obeys_from_spec() -> bool {
        true
    }

    open spec fn from_spec(inner: anyhow::Error) -> AppError {
        AppError::InternalServerError
    }
}

impl From<anyhow::Error> for AppError {
    /// Any failure reported through `anyhow` is an internal server error.
    fn from(inner: anyhow::Error) -> Self {
        AppError::InternalServerError
    }
}

} // verus!
