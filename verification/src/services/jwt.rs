//! Access tokens: HS256-signed JWTs that name a user for thirty minutes.
use vstd::prelude::*;
use vstd::string::*;

use crate::clock::{utc_now, MAX_TIMESTAMP_SECS};
use crate::error::AppError;
use crate::ids::{parse_uuid, parsed_uuid, uuid_text, uuid_to_string};
use crate::text::{decimal, usize_to_decimal};

verus! {

/// How long an access token stays valid, in seconds.
pub const TOKEN_LIFETIME_SECS: i64 = 1800;

/// The payload of an access token: the user's identifier as text, the
/// expiry and the issue time, both in seconds since the Unix epoch.
#[derive(Clone, Debug)]
pub struct Claims {
    pub sub: String,
    pub exp: usize,
    pub iat: usize,
}

/// The instants at which a token can be issued: not before the epoch, and
/// early enough that its expiry is still a representable date.
pub open spec fn issuable_at(now_secs: i64) -> bool {
    0 <= now_secs <= MAX_TIMESTAMP_SECS - TOKEN_LIFETIME_SECS
}

impl Claims {
    /// The claims of a token for `user_id` issued at `now_secs`.
    pub fn for_user(user_id: u128, now_secs: i64) -> (c: Claims)
        requires
            issuable_at(now_secs),
        ensures
            c.sub@ == uuid_text(user_id),
            c.iat == now_secs as usize,
            c.exp == (now_secs + TOKEN_LIFETIME_SECS) as usize,
            now_secs + TOKEN_LIFETIME_SECS <= usize::MAX ==> c.exp == c.iat + TOKEN_LIFETIME_SECS,
    {
        Claims {
            sub: uuid_to_string(user_id),
            exp: (now_secs + TOKEN_LIFETIME_SECS) as usize,
            iat: now_secs as usize,
        }
    }
}

/// The JSON text of a token's claims, fields in declaration order, as
/// `serde_json` writes them for a subject made of hex digits and hyphens.
pub open spec fn claims_json(sub: Seq<char>, exp: usize, iat: usize) -> Seq<char> {
    "{\"sub\":\""@ + sub + "\",\"exp\":"@ + decimal(exp as nat) + ",\"iat\":"@ + decimal(
        iat as nat,
    ) + "}"@
}

/// The JSON payload of the token for `user_id` issued at `now_secs`.
pub open spec fn token_payload(user_id: u128, now_secs: i64) -> Seq<char> {
    claims_json(
        uuid_text(user_id),
        (now_secs + TOKEN_LIFETIME_SECS) as usize,
        now_secs as usize,
    )
}

/// Writes the JSON text of the claims.
fn claims_to_json(c: &Claims) -> (s: String)
    ensures
        s@ == claims_json(c.sub@, c.exp, c.iat),
{
    let exp = usize_to_decimal(c.exp);
    let iat = usize_to_decimal(c.iat);
    String::from_str("{\"sub\":\"").concat(c.sub.as_str()).concat("\",\"exp\":").concat(
        exp.as_str(),
    ).concat(",\"iat\":").concat(iat.as_str()).concat("}")
}

/// What `jsonwebtoken::encode` yields with the default header (HS256) for a
/// JSON payload and an HMAC secret: the token, or `None` when it fails.
pub uninterp spec fn hs256_token(payload: Seq<char>, secret: Seq<char>) -> Option<Seq<char>>;

/// Signs a JSON payload through `jsonwebtoken::encode`, with the default
/// header and `EncodingKey::from_secret` over the secret's bytes; the payload
/// goes in verbatim as a `serde_json` raw value (`RawValue::from_string`,
/// which refuses a text that is not JSON; that refusal counts as a failure
/// of the signing).
///
/// The outcome is a function of the payload and the secret (HMAC-SHA256 and
/// base64url are deterministic) and is named `hs256_token`. The crate's source
/// shows that with an HMAC key and the HS256 header `encode` cannot fail: the
/// header and a raw value always serialise, and `sign` for HS256 always yields
/// the HMAC. So signing fails only for a payload that is not JSON, and the
/// payloads of this service's tokens are JSON objects.
#[verifier::external_body]
fn sign_hs256(payload: &str, secret: &str) -> (r: Option<String>)
    ensures
        match r {
            Some(t) => hs256_token(payload@, secret@) == Some(t@),
            None => hs256_token(payload@, secret@) is None,
        },
        forall|id: u128, at: i64| payload@ == #[trigger] token_payload(id, at) ==> r is Some,
{
    let raw = match serde_json::value::RawValue::from_string(payload.to_string()) {
        Ok(raw) => raw,
        Err(_) => return None,
    };
    let key = jsonwebtoken::EncodingKey::from_secret(secret.as_bytes());
    match jsonwebtoken::encode(&jsonwebtoken::Header::default(), &raw, &key) {
        Ok(token) => Some(token),
        Err(_) => None,
    }
}

/// The token for `user_id` issued at `now_secs`, signed with `secret`.
pub fn create_jwt_at(user_id: u128, now_secs: i64, secret: &str) -> (r: Result<String, AppError>)
    requires
        issuable_at(now_secs),
    ensures
        hs256_token(token_payload(user_id, now_secs), secret@) matches Some(t) && r matches Ok(
            token,
        ) && token@ == t,
{
    let claims = Claims::for_user(user_id, now_secs);
    let payload = claims_to_json(&claims);
    assert(payload@ == token_payload(user_id, now_secs));
    match sign_hs256(payload.as_str(), secret) {
        Some(token) => Ok(token),
        None => Err(AppError::InternalServerError),
    }
}

/// A clock reading within the calendar at which a token can no longer be
/// issued: its expiry would leave the calendar.
pub open spec fn too_late_to_issue(now: i64) -> bool {
    MAX_TIMESTAMP_SECS - TOKEN_LIFETIME_SECS < now <= MAX_TIMESTAMP_SECS
}

/// The token for `user_id`, issued now and signed with `secret`. It fails,
/// as an internal server error, only if the clock read so late that the
/// expiry would leave the calendar.
pub fn create_jwt(user_id: u128, secret: &str) -> (r: Result<String, AppError>)
    ensures
        r matches Ok(t) ==> exists|now: i64|
            issuable_at(now) && hs256_token(#[trigger] token_payload(user_id, now), secret@) == Some(
                t@,
            ),
        r matches Err(e) ==> e == AppError::InternalServerError && exists|now: i64|
            #[trigger] too_late_to_issue(now),
{
    let now = utc_now();
    if now.secs > MAX_TIMESTAMP_SECS - TOKEN_LIFETIME_SECS {
        assert(too_late_to_issue(now.secs));
        return Err(AppError::InternalServerError);
    }
    let r = create_jwt_at(user_id, now.secs, secret);
    assert(token_payload(user_id, now.secs) == token_payload(user_id, now.secs));
    r
}

/// What `jsonwebtoken::decode` yields for a token and an HMAC secret when it
/// checks the HS256 signature and the claims that need no clock: the token's
/// payload as JSON text, or `None` when the token is refused.
pub uninterp spec fn hs256_payload(token: Seq<char>, secret: Seq<char>) -> Option<Seq<char>>;

/// Checks a token through `jsonwebtoken::decode` with
/// `DecodingKey::from_secret` over the secret's bytes and
/// `Validation::new(HS256)`, the expiry check alone switched off (the guard
/// judges the expiry against its own clock reading, `admit_claims`): the
/// signature must match, the payload must be a JSON object with a numeric
/// `exp`, and it must have no `aud` claim, since no audience is configured.
/// The payload comes back verbatim as a `serde_json` raw value.
///
/// The outcome is a function of the token and the secret and is named
/// `hs256_payload`. The one fact stated is what the crate's source shows for
/// a token `encode` made: `decode` splits it into the same header, payload and
/// signature, recomputes the same HMAC, and hands back the payload text it
/// base64-decoded, which for these payloads (a JSON object with a text `sub`
/// and numeric `exp` and `iat`, and no `aud`) passes the claim checks.
#[verifier::external_body]
pub(crate) fn verify_hs256(token: &str, secret: &str) -> (r: Option<String>)
    ensures
        match r {
            Some(p) => hs256_payload(token@, secret@) == Some(p@),
            None => hs256_payload(token@, secret@) is None,
        },
        r is None ==> forall|id: u128, at: i64|
            hs256_token(#[trigger] token_payload(id, at), secret@) != Some(token@),
        r matches Some(p) ==> forall|id: u128, at: i64|
            hs256_token(#[trigger] token_payload(id, at), secret@) == Some(token@) ==> p@
                == token_payload(id, at),
{
    let mut validation = jsonwebtoken::Validation::new(jsonwebtoken::Algorithm::HS256);
    validation.validate_exp = false;
    let key = jsonwebtoken::DecodingKey::from_secret(secret.as_bytes());
    match jsonwebtoken::decode::<Box<serde_json::value::RawValue>>(token, &key, &validation) {
        Ok(data) => Some(data.claims.get().to_string()),
        Err(_) => None,
    }
}

/// How long past its expiry a token is still accepted, in seconds (the
/// default leeway of `jsonwebtoken`'s validation).
pub const TOKEN_LEEWAY_SECS: i64 = 60;

/// Whether a token with expiry `exp` is past its leeway at `now`.
pub open spec fn token_expired(exp: usize, now: i64) -> bool {
    exp + TOKEN_LEEWAY_SECS < now
}

/// The guard's verdict at `now` on the claims read from a verified token:
/// claims past their expiry and leeway are unauthorized; a subject that is no
/// UUID is an invalid identifier; otherwise the subject names the user.
pub open spec fn claims_admission(c: Claims, now: i64) -> Result<u128, AppError> {
    if token_expired(c.exp, now) {
        Err(AppError::Unauthorized)
    } else {
        match parsed_uuid(c.sub@) {
            Some(id) => Ok(id),
            None => Err(AppError::InvalidId),
        }
    }
}

/// The claims of the token this service issues for `id` at `at`.
pub open spec fn issued_claims(c: Claims, id: u128, at: i64) -> bool {
    &&& c.sub@ == uuid_text(id)
    &&& c.exp == (at + TOKEN_LIFETIME_SECS) as usize
    &&& c.iat == at as usize
}

/// Decides, at `now`, on the claims read from a verified token. The claims
/// of a token issued for `id`, read within its lifetime and leeway, are
/// admitted for `id`.
pub fn admit_claims(c: &Claims, now: i64) -> (r: Result<u128, AppError>)
    ensures
        r == claims_admission(*c, now),
        forall|id: u128, at: i64|
            issuable_at(at) && at + TOKEN_LIFETIME_SECS <= usize::MAX && #[trigger] issued_claims(
                *c,
                id,
                at,
            ) && now <= at + TOKEN_LIFETIME_SECS + TOKEN_LEEWAY_SECS ==> r == Ok::<u128, AppError>(
                id,
            ),
{
    if (c.exp as i128) + (TOKEN_LEEWAY_SECS as i128) < (now as i128) {
        return Err(AppError::Unauthorized);
    }
    match parse_uuid(c.sub.as_str()) {
        Some(id) => Ok(id),
        None => Err(AppError::InvalidId),
    }
}

/// An access token lives thirty minutes from its issue, and is accepted up
/// to sixty seconds past its expiry: the claims of the token issued for `id`
/// at `at` name `id`'s text form, were issued at `at` and expire 1800
/// seconds later, and are expired at `now` exactly when `now` is more than
/// 1860 seconds after `at`.
pub proof fn token_lifetime(c: Claims, id: u128, at: i64, now: i64)
    requires
        issued_claims(c, id, at),
        issuable_at(at),
        at + 1800 <= usize::MAX,
    ensures
        c.sub@ == uuid_text(id),
        c.iat == at,
        c.exp == at + 1800,
        token_expired(c.exp, now) <==> now > at + 1860,
{
}

} // verus!
