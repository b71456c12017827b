//! Services shared by the handlers: tokens, cookies and uniqueness checks.
pub mod conflict;
pub mod cookie;
pub mod jwt;
pub mod password;
