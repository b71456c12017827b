//! Account administration.
use vstd::prelude::*;
use vstd::string::*;

use crate::error::DbError;
use crate::ids::{parse_uuid, parsed_uuid};
use crate::models::{listing_of, User, UserListing};
use crate::reply::{
    error_reply, is_error_reply, is_message_reply, message_reply, Reply, ReplyBody, BAD_REQUEST,
    INTERNAL_SERVER_ERROR, NOT_FOUND, OK,
};

verus! {

/// The greeting of `GET /api/user/me`.
pub fn get_me() -> (r: Reply)
    ensures
        r.status == OK,
        r.body matches ReplyBody::Html(h) && h@ == "Hello this is ME"@,
{
    Reply { status: OK, body: ReplyBody::Html(String::from_str("Hello this is ME")) }
}

/// The answer of `GET /api/user/{id}`, which echoes the identifier.
pub fn get_user(id: &str) -> (r: Reply)
    ensures
        r.status == OK,
        r.body matches ReplyBody::Html(h) && h@ == "User with id: "@ + id@,
{
    let text = String::from_str("User with id: ").concat(id);
    Reply { status: OK, body: ReplyBody::Html(text) }
}

/// The answer of `GET /api/user/all`: every account, as loaded and in that
/// order, each without its password hash.
pub fn list_users(users: Vec<User>) -> (r: Reply)
    ensures
        r.status == OK,
        r.body matches ReplyBody::Users(listed) && listed@ == users@.map_values(
            |u: User| listing_of(u),
        ),
{
    let ghost all = users@;
    let mut listed: Vec<UserListing> = Vec::new();
    let mut rest = users;
    while rest.len() > 0
        invariant
            listed@.len() + rest@.len() == all.len(),
            listed@ =~= all.subrange(0, listed@.len() as int).map_values(|u: User| listing_of(u)),
            rest@ =~= all.subrange(listed@.len() as int, all.len() as int),
        decreases rest@.len(),
    {
        let user = rest.remove(0);
        listed.push(UserListing::of(user));
    }
    Reply { status: OK, body: ReplyBody::Users(listed) }
}

/// What the deletion of an account asks for.
#[derive(Debug)]
pub enum DeleteAction {
    /// Delete the rows with this identifier and report how many there were.
    DeleteUser { user_id: u128 },
    /// Answer the request.
    Finish(Reply),
}

/// `a` answers `400 Bad Request` with the plain text `Invalid UUID format`.
pub open spec fn is_bad_id_answer(a: DeleteAction) -> bool {
    &&& a matches DeleteAction::Finish(r)
    &&& r.status == BAD_REQUEST
    &&& r.body matches ReplyBody::Text(t)
    &&& t@ == "Invalid UUID format"@
}

/// Starts the deletion of the account named by the path segment `id`: an
/// identifier that does not parse as a UUID is answered `400 Bad Request`
/// in plain text.
pub fn delete_user(id: &str) -> (a: DeleteAction)
    ensures
        match parsed_uuid(id@) {
            Some(user_id) => a == DeleteAction::DeleteUser { user_id },
            None => is_bad_id_answer(a),
        },
{
    match parse_uuid(id) {
        Some(user_id) => DeleteAction::DeleteUser { user_id },
        None => DeleteAction::Finish(
            Reply { status: BAD_REQUEST, body: ReplyBody::Text(String::from_str("Invalid UUID format")) },
        ),
    }
}

/// The answer to a deletion, from the number of rows deleted: none means the
/// account did not exist.
pub fn deletion_reply(deleted: Result<usize, DbError>) -> (r: Reply)
    ensures
        match deleted {
            Ok(n) => if n == 0 {
                is_error_reply(r, NOT_FOUND, "User not found"@)
            } else {
                is_message_reply(r, OK, "User deleted successfully"@)
            },
            Err(_) => is_error_reply(r, INTERNAL_SERVER_ERROR, "Database error"@),
        },
{
    match deleted {
        Ok(n) => if n == 0 {
            error_reply(NOT_FOUND, "User not found")
        } else {
            message_reply(OK, "User deleted successfully")
        },
        Err(_) => error_reply(INTERNAL_SERVER_ERROR, "Database error"),
    }
}

/// An identifier that does not parse is answered `400 Bad Request` with the
/// plain text `Invalid UUID format`.
pub proof fn bad_id_answer_shape(a: DeleteAction)
    requires
        is_bad_id_answer(a),
    ensures
        a is Finish,
        a->Finish_0.status == 400,
        a->Finish_0.body is Text,
        a->Finish_0.body->Text_0@ == "Invalid UUID format"@,
{
}

} // verus!
