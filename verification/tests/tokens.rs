use rust_axum::handlers::user_handler::{delete_user, DeleteAction};
use rust_axum::models::User;
use rust_axum::services::cookie::{is_production_flag, save_to_cookie, token_removal, SameSite};
use rust_axum::error::AppError;
use rust_axum::services::jwt::{admit_claims, create_jwt, create_jwt_at, Claims, TOKEN_LIFETIME_SECS};

const ID: u128 = 0x550e8400_e29b_41d4_a716_446655440000;

fn deleted_id(text: &str) -> Option<u128> {
    match delete_user(text) {
        DeleteAction::DeleteUser { user_id } => Some(user_id),
        DeleteAction::Finish(_) => None,
    }
}

#[test]
fn uuid_text_is_hyphenated_lower_hex() {
    assert_eq!(Claims::for_user(ID, 0).sub, "550e8400-e29b-41d4-a716-446655440000");
    assert_eq!(Claims::for_user(1, 0).sub, "00000000-0000-0000-0000-000000000001");
}

#[test]
fn uuid_text_parses_back() {
    assert_eq!(deleted_id(&Claims::for_user(ID, 0).sub), Some(ID));
    assert_eq!(deleted_id("550E8400-E29B-41D4-A716-446655440000"), Some(ID));
    assert_eq!(deleted_id("550e8400e29b41d4a716446655440000"), Some(ID));
    assert_eq!(deleted_id("not-a-uuid"), None);
    assert_eq!(deleted_id(""), None);
}

#[test]
fn new_users_get_fresh_version_7_ids_and_the_current_time() {
    let u = User::new("A".to_string(), "a".to_string(), "a@b.c".to_string(), "h".to_string());
    let v = User::new("A".to_string(), "a".to_string(), "a@b.c".to_string(), "h".to_string());
    assert_eq!((u.id >> 76) & 0xf, 7);
    assert_eq!((u.id >> 62) & 0x3, 2);
    assert_ne!(u.id, v.id);
    assert!(u.created_at.secs > 1_600_000_000);
    assert!(u.created_at.nanos < 1_000_000_000);
    assert!(!u.is_admin);
    assert!(u.is_active);
    assert!(u.updated_at.is_none());
    assert_eq!(u.full_name, "A");
    assert_eq!(u.password, "h");
}

#[test]
fn claims_expire_thirty_minutes_after_issue() {
    let c = Claims::for_user(ID, 1_700_000_000);
    assert_eq!(c.sub, "550e8400-e29b-41d4-a716-446655440000");
    assert_eq!(c.iat, 1_700_000_000);
    assert_eq!(c.exp, 1_700_001_800);
    assert_eq!(TOKEN_LIFETIME_SECS, 1800);
}

fn decode(token: &str, secret: &str) -> serde_json::Value {
    let mut validation = jsonwebtoken::Validation::new(jsonwebtoken::Algorithm::HS256);
    validation.validate_exp = false;
    validation.required_spec_claims.clear();
    jsonwebtoken::decode::<serde_json::Value>(
        token,
        &jsonwebtoken::DecodingKey::from_secret(secret.as_bytes()),
        &validation,
    )
    .expect("token decodes")
    .claims
}

#[test]
fn token_at_fixed_time_carries_the_claims() {
    let token = create_jwt_at(ID, 1_700_000_000, "s3cret").expect("signed");
    let claims = decode(&token, "s3cret");
    assert_eq!(claims["sub"], "550e8400-e29b-41d4-a716-446655440000");
    assert_eq!(claims["iat"], 1_700_000_000u64);
    assert_eq!(claims["exp"], 1_700_001_800u64);
    let header = jsonwebtoken::decode_header(&token).unwrap();
    assert_eq!(header.alg, jsonwebtoken::Algorithm::HS256);
    // the payload is the compact JSON of the claims, fields in order
    let payload = token.split('.').nth(1).unwrap();
    assert_eq!(payload, "eyJzdWIiOiI1NTBlODQwMC1lMjliLTQxZDQtYTcxNi00NDY2NTU0NDAwMDAiLCJleHAiOjE3MDAwMDE4MDAsImlhdCI6MTcwMDAwMDAwMH0");
}

#[test]
fn token_is_deterministic_and_secret_bound() {
    let a = create_jwt_at(ID, 1_700_000_000, "s3cret").unwrap();
    let b = create_jwt_at(ID, 1_700_000_000, "s3cret").unwrap();
    let c = create_jwt_at(ID, 1_700_000_000, "other").unwrap();
    assert_eq!(a, b);
    assert_ne!(a, c);
    let mut validation = jsonwebtoken::Validation::new(jsonwebtoken::Algorithm::HS256);
    validation.validate_exp = false;
    assert!(jsonwebtoken::decode::<serde_json::Value>(
        &a,
        &jsonwebtoken::DecodingKey::from_secret(b"other"),
        &validation
    )
    .is_err());
}

#[test]
fn token_now_expires_in_thirty_minutes() {
    let token = create_jwt(ID, "k").expect("signed");
    let claims = decode(&token, "k");
    let iat = claims["iat"].as_u64().unwrap();
    let exp = claims["exp"].as_u64().unwrap();
    assert_eq!(exp - iat, 1800);
    assert!(iat > 1_600_000_000);
}

#[test]
fn admitted_claims() {
    let c = Claims::for_user(ID, 1_700_000_000);
    assert_eq!(admit_claims(&c, 1_700_000_000).ok(), Some(ID));
    assert_eq!(admit_claims(&c, 1_700_001_860).ok(), Some(ID));
    assert!(matches!(admit_claims(&c, 1_700_001_861), Err(AppError::Unauthorized)));
    let bad = Claims { sub: "not-a-uuid".to_string(), exp: 1_700_001_800, iat: 0 };
    assert!(matches!(admit_claims(&bad, 1_700_000_000), Err(AppError::InvalidId)));
    // an expired token is unauthorized before its subject is looked at
    assert!(matches!(admit_claims(&bad, 1_800_000_000), Err(AppError::Unauthorized)));
}

#[test]
fn cookie_attributes() {
    let c = save_to_cookie("tok".to_string(), false);
    assert_eq!(c.name, "accessToken");
    assert_eq!(c.value, "tok");
    assert!(c.http_only);
    assert!(!c.secure);
    assert_eq!(c.same_site, SameSite::Strict);
    assert_eq!(c.path, "/");
    assert_eq!(c.max_age_secs, 86_400);
    assert!(save_to_cookie("tok".to_string(), true).secure);
    let r = token_removal();
    assert_eq!(r.name, "accessToken");
    assert_eq!(r.path, "/");
}

#[test]
fn production_flag() {
    assert!(is_production_flag(Some("true")));
    assert!(!is_production_flag(Some("TRUE")));
    assert!(!is_production_flag(Some("false")));
    assert!(!is_production_flag(None));
}
