//! The cookie that carries the access token.
use vstd::prelude::*;
use vstd::string::*;

verus! {

/// Name of the cookie that carries the access token.
pub const ACCESS_TOKEN_COOKIE: &'static str = "accessToken";

/// Lifetime of the access-token cookie: one day, in seconds.
pub const COOKIE_MAX_AGE_SECS: i64 = 86_400;

/// The `SameSite` attribute of a cookie.
#[derive(Clone, Copy, Debug, PartialEq, Eq, Structural)]
pub enum SameSite {
    Strict,
    Lax,
    NoRestriction,
}

/// A cookie to set on the client.
#[derive(Clone, Debug)]
pub struct CookieSpec {
    pub name: String,
    pub value: String,
    pub http_only: bool,
    pub secure: bool,
    pub same_site: SameSite,
    pub path: String,
    pub max_age_secs: i64,
}

/// A cookie to remove from the client.
#[derive(Clone, Debug)]
pub struct CookieRemoval {
    pub name: String,
    pub path: String,
}

/// What an answer does to the client's cookies.
#[derive(Clone, Debug)]
pub enum CookieEffect {
    Unchanged,
    Store(CookieSpec),
    Remove(CookieRemoval),
}

/// Whether the service runs in production, from the value of the
/// `PRODUCTION` setting: only the exact text `true` turns it on.
pub fn is_production_flag(value: Option<&str>) -> (r: bool)
    ensures
        r == (value matches Some(v) && v@ == "true"@),
{
    match value {
        Some(v) => String::from_str(v) == String::from_str("true"),
        None => false,
    }
}

/// `c` is the access-token cookie carrying `token`.
pub open spec fn is_token_cookie(c: CookieSpec, token: Seq<char>, is_production: bool) -> bool {
    &&& c.name@ == ACCESS_TOKEN_COOKIE@
    &&& c.value@ == token
    &&& c.http_only
    &&& c.secure == is_production
    &&& c.same_site == SameSite::Strict
    &&& c.path@ == "/"@
    &&& c.max_age_secs == COOKIE_MAX_AGE_SECS
}

/// The access-token cookie for `token`: HTTP-only, same-site strict, valid
/// for the whole site during one day, and secure only in production.
pub fn save_to_cookie(token: String, is_production: bool) -> (c: CookieSpec)
    ensures
        is_token_cookie(c, token@, is_production),
{
    CookieSpec {
        name: String::from_str(ACCESS_TOKEN_COOKIE),
        value: token,
        http_only: true,
        secure: is_production,
        same_site: SameSite::Strict,
        path: String::from_str("/"),
        max_age_secs: COOKIE_MAX_AGE_SECS,
    }
}

/// `r` removes the access-token cookie of the whole site.
pub open spec fn is_token_removal(r: CookieRemoval) -> bool {
    &&& r.name@ == ACCESS_TOKEN_COOKIE@
    &&& r.path@ == "/"@
}

/// The removal of the access-token cookie.
pub fn token_removal() -> (r: CookieRemoval)
    ensures
        is_token_removal(r),
{
    CookieRemoval { name: String::from_str(ACCESS_TOKEN_COOKIE), path: String::from_str("/") }
}

/// The access-token cookie is named `accessToken`, carries the token as its
/// value, is HTTP-only and same-site strict, covers the whole site for one
/// day (86 400 seconds), and is secure exactly in production.
pub proof fn token_cookie_attributes(c: CookieSpec, token: Seq<char>, is_production: bool)
    requires
        is_token_cookie(c, token, is_production),
    ensures
        c.name@ == "accessToken"@,
        c.value@ == token,
        c.http_only,
        c.secure == is_production,
        c.same_site == SameSite::Strict,
        c.path@ == "/"@,
        c.max_age_secs == 86_400,
{
}

/// The removal of the access-token cookie names `accessToken` on the path
/// `/`.
pub proof fn token_removal_attributes(r: CookieRemoval)
    requires
        is_token_removal(r),
    ensures
        r.name@ == "accessToken"@,
        r.path@ == "/"@,
{
}

} // verus!
