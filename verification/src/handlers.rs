//! The request handlers, each a state machine that decides what to do next
//! from what the database, the password hasher and the token signer report.
pub mod auth_handler;
pub mod user_handler;
