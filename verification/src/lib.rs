//! Verified core of an authentication web service: the decisions of its
//! handlers and guards, the validation of its requests, the answers to its
//! errors, and the tokens and cookies it hands out. Database access, password
//! hashing, routing and the HTTP server stand around it.
use vstd::prelude::*;
use vstd::string::*;

pub mod clock;
pub mod error;
pub mod handlers;
pub mod ids;
pub mod middleware;
pub mod models;
pub mod reply;
pub mod services;
pub mod text;

pub use error::AppError;
pub use models::ValidJson;

use reply::{Reply, ReplyBody, INTERNAL_SERVER_ERROR, NOT_FOUND};

verus! {

/// The answer to a request for a route that does not exist.
pub fn fallback_handler(path: &str) -> (r: Reply)
    ensures
        r.status == NOT_FOUND,
        r.body matches ReplyBody::ErrorWithMessage { error, message } && error@
            == "Path Not Found"@ && message@ == "No route found for path: "@ + path@,
{
    let message = String::from_str("No route found for path: ").concat(path);
    Reply {
        status: NOT_FOUND,
        body: ReplyBody::ErrorWithMessage { error: String::from_str("Path Not Found"), message },
    }
}

/// The answer when no database connection can be had from the pool.
pub fn connection_failure() -> (r: Reply)
    ensures
        r.status == INTERNAL_SERVER_ERROR,
        r.body matches ReplyBody::Text(t) && t@ == "Database connection error"@,
{
    Reply {
        status: INTERNAL_SERVER_ERROR,
        body: ReplyBody::Text(String::from_str("Database connection error")),
    }
}

} // verus!
