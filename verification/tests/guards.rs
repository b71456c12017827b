use rust_axum::clock::Timestamp;
use rust_axum::error::{AppError, DbError};
use rust_axum::handlers::user_handler::{delete_user, deletion_reply, get_me, get_user, list_users, DeleteAction};
use rust_axum::middleware::{auth, is_admin, AuthAction, AuthEvent, AuthFlow};
use rust_axum::models::{User, UserResponse};
use rust_axum::reply::ReplyBody;
use rust_axum::services::jwt::{create_jwt_at, Claims};
use rust_axum::{connection_failure, fallback_handler};

const ID: u128 = 0x550e8400_e29b_41d4_a716_446655440000;

fn user(is_admin: bool) -> User {
    User {
        id: ID,
        full_name: "Grace Hopper".to_string(),
        username: "grace".to_string(),
        email: "grace@example.com".to_string(),
        password: "$hash".to_string(),
        is_admin,
        is_active: true,
        created_at: Timestamp { secs: 0, nanos: 0 },
        updated_at: None,
    }
}

fn claims(sub: &str, exp: usize) -> Claims {
    Claims { sub: sub.to_string(), exp, iat: 1 }
}

const SECRET: &str = "s3cret";

fn now_secs() -> i64 {
    std::time::SystemTime::now().duration_since(std::time::UNIX_EPOCH).unwrap().as_secs() as i64
}

/// Signs an arbitrary JSON payload the way the service does.
fn sign(payload: &str, secret: &str) -> String {
    let raw = serde_json::value::RawValue::from_string(payload.to_string()).unwrap();
    jsonwebtoken::encode(
        &jsonwebtoken::Header::default(),
        &raw,
        &jsonwebtoken::EncodingKey::from_secret(secret.as_bytes()),
    )
    .unwrap()
}

fn parsed_payload(action: &AuthAction) -> String {
    match action {
        AuthAction::ParseClaims { payload } => payload.clone(),
        other => panic!("unexpected action {:?}", other),
    }
}

#[test]
fn auth_without_cookie_is_unauthorized() {
    let (flow, action) = auth(None, SECRET);
    assert!(matches!(flow, AuthFlow::Finished));
    assert!(matches!(action, AuthAction::Reject(AppError::Unauthorized)));
}

#[test]
fn auth_admits_an_issued_token_of_a_known_user() {
    let at = now_secs() - 10;
    let token = create_jwt_at(ID, at, SECRET).unwrap();
    let (flow, action) = auth(Some(token), SECRET);
    let payload = parsed_payload(&action);
    assert_eq!(
        payload,
        format!("{{\"sub\":\"550e8400-e29b-41d4-a716-446655440000\",\"exp\":{},\"iat\":{}}}", at + 1800, at)
    );
    let (flow, action) = flow.step(AuthEvent::ClaimsParsed(Some(Claims::for_user(ID, at))));
    assert!(matches!(action, AuthAction::FindUser { user_id } if user_id == ID));
    let (_, action) = flow.step(AuthEvent::UserFound(Ok(user(false))));
    match action {
        AuthAction::Admit { claims, user } => {
            assert_eq!(claims.sub, "550e8400-e29b-41d4-a716-446655440000");
            assert_eq!(user.username, "grace");
        }
        other => panic!("unexpected action {:?}", other),
    }
}

#[test]
fn auth_honours_the_leeway() {
    // expired 30 seconds ago: still within the 60 seconds of leeway
    let at = now_secs() - 1830;
    let (flow, action) = auth(Some(create_jwt_at(ID, at, SECRET).unwrap()), SECRET);
    parsed_payload(&action);
    let (_, action) = flow.step(AuthEvent::ClaimsParsed(Some(Claims::for_user(ID, at))));
    assert!(matches!(action, AuthAction::FindUser { .. }));
}

#[test]
fn auth_rejections() {
    // a token signed with another secret
    let token = create_jwt_at(ID, now_secs(), "other").unwrap();
    let (_, a) = auth(Some(token), SECRET);
    assert!(matches!(a, AuthAction::Reject(AppError::Unauthorized)));

    // a token that is not a token
    let (_, a) = auth(Some("garbage".to_string()), SECRET);
    assert!(matches!(a, AuthAction::Reject(AppError::Unauthorized)));

    // a payload without the claims
    let (flow, _) = auth(Some(create_jwt_at(ID, now_secs(), SECRET).unwrap()), SECRET);
    let (_, a) = flow.step(AuthEvent::ClaimsParsed(None));
    assert!(matches!(a, AuthAction::Reject(AppError::Unauthorized)));

    // a signed payload with an audience (none is configured)
    let exp = now_secs() + 100;
    let payload = format!("{{\"sub\":\"x\",\"exp\":{},\"aud\":\"web\"}}", exp);
    let (_, a) = auth(Some(sign(&payload, SECRET)), SECRET);
    assert!(matches!(a, AuthAction::Reject(AppError::Unauthorized)));

    // a signed payload without an expiry
    let (_, a) = auth(Some(sign("{\"sub\":\"x\",\"iat\":1}", SECRET)), SECRET);
    assert!(matches!(a, AuthAction::Reject(AppError::Unauthorized)));

    // an expired token
    let at = now_secs() - 4000;
    let (flow, _) = auth(Some(create_jwt_at(ID, at, SECRET).unwrap()), SECRET);
    let (_, a) = flow.step(AuthEvent::ClaimsParsed(Some(Claims::for_user(ID, at))));
    assert!(matches!(a, AuthAction::Reject(AppError::Unauthorized)));

    // a subject that is no UUID
    let exp = (now_secs() + 100) as usize;
    let payload = format!("{{\"sub\":\"bob\",\"exp\":{},\"iat\":1}}", exp);
    let (flow, action) = auth(Some(sign(&payload, SECRET)), SECRET);
    assert_eq!(parsed_payload(&action), payload);
    let (_, a) = flow.step(AuthEvent::ClaimsParsed(Some(claims("bob", exp))));
    assert!(matches!(a, AuthAction::Reject(AppError::InvalidId)));

    // a subject with no account
    let at = now_secs();
    let (flow, _) = auth(Some(create_jwt_at(ID, at, SECRET).unwrap()), SECRET);
    let (flow, _) = flow.step(AuthEvent::ClaimsParsed(Some(Claims::for_user(ID, at))));
    let (_, a) = flow.step(AuthEvent::UserFound(Err(DbError::NotFound)));
    assert!(matches!(a, AuthAction::Reject(AppError::UserNotFound)));

    // a report that does not belong to the step
    let (flow, _) = auth(Some(create_jwt_at(ID, now_secs(), SECRET).unwrap()), SECRET);
    let (_, a) = flow.step(AuthEvent::UserFound(Ok(user(true))));
    assert!(matches!(a, AuthAction::Reject(AppError::InternalServerError)));
}

#[test]
fn auth_admits_any_layout_of_a_signed_payload() {
    // keys in another order, an extra claim and spacing: still a valid token
    let exp = now_secs() + 600;
    let payload = format!(
        "{{ \"exp\": {}, \"iss\": \"elsewhere\", \"iat\": 5, \"sub\": \"550e8400-e29b-41d4-a716-446655440000\" }}",
        exp
    );
    let (flow, action) = auth(Some(sign(&payload, SECRET)), SECRET);
    assert_eq!(parsed_payload(&action), payload);
    let c = Claims { sub: "550e8400-e29b-41d4-a716-446655440000".to_string(), exp: exp as usize, iat: 5 };
    let (flow, action) = flow.step(AuthEvent::ClaimsParsed(Some(c)));
    assert!(matches!(action, AuthAction::FindUser { user_id } if user_id == ID));
    let (_, action) = flow.step(AuthEvent::UserFound(Err(DbError::NotFound)));
    assert!(matches!(action, AuthAction::Reject(AppError::UserNotFound)));
}

#[test]
fn auth_step_at_a_given_reading() {
    let start = || auth(Some(create_jwt_at(ID, 1_000, SECRET).unwrap()), SECRET).0;
    let (_, a) = start().step_at(AuthEvent::ClaimsParsed(Some(Claims::for_user(ID, 1_000))), 2_860);
    assert!(matches!(a, AuthAction::FindUser { user_id } if user_id == ID));
    let (_, a) = start().step_at(AuthEvent::ClaimsParsed(Some(Claims::for_user(ID, 1_000))), 2_861);
    assert!(matches!(a, AuthAction::Reject(AppError::Unauthorized)));
    let (_, a) = start().step_at(AuthEvent::ClaimsParsed(Some(claims("nope", 5_000))), 2_000);
    assert!(matches!(a, AuthAction::Reject(AppError::InvalidId)));
}

#[test]
fn admin_gate() {
    assert!(is_admin(&user(true)).is_ok());
    assert!(matches!(is_admin(&user(false)), Err(AppError::Restricted)));
}

#[test]
fn delete_user_needs_a_uuid() {
    match delete_user("42") {
        DeleteAction::Finish(r) => {
            assert_eq!(r.status, 400);
            assert!(matches!(r.body, ReplyBody::Text(ref t) if t == "Invalid UUID format"));
        }
        other => panic!("unexpected action {:?}", other),
    }
    assert!(matches!(
        delete_user("550e8400-e29b-41d4-a716-446655440000"),
        DeleteAction::DeleteUser { user_id } if user_id == ID
    ));
}

#[test]
fn deletion_answers() {
    let r = deletion_reply(Ok(0));
    assert_eq!(r.status, 404);
    assert!(matches!(r.body, ReplyBody::Error { ref error } if error == "User not found"));
    let r = deletion_reply(Ok(1));
    assert_eq!(r.status, 200);
    assert!(matches!(r.body, ReplyBody::Message { ref message } if message == "User deleted successfully"));
    let r = deletion_reply(Err(DbError::Failed("x".to_string())));
    assert_eq!(r.status, 500);
    assert!(matches!(r.body, ReplyBody::Error { ref error } if error == "Database error"));
}

#[test]
fn simple_pages() {
    let r = get_me();
    assert_eq!(r.status, 200);
    assert!(matches!(r.body, ReplyBody::Html(ref h) if h == "Hello this is ME"));
    let r = get_user("abc");
    assert!(matches!(r.body, ReplyBody::Html(ref h) if h == "User with id: abc"));
    let r = list_users(vec![user(false), user(true)]);
    assert_eq!(r.status, 200);
    match r.body {
        ReplyBody::Users(v) => {
            assert_eq!(v.len(), 2);
            assert_eq!(v[0].username, "grace");
            assert!(!v[0].is_admin);
            assert!(v[1].is_admin);
        }
        other => panic!("unexpected body {:?}", other),
    }
    let r = fallback_handler("/nope");
    assert_eq!(r.status, 404);
    match r.body {
        ReplyBody::ErrorWithMessage { error, message } => {
            assert_eq!(error, "Path Not Found");
            assert_eq!(message, "No route found for path: /nope");
        }
        other => panic!("unexpected body {:?}", other),
    }
    let r = connection_failure();
    assert_eq!(r.status, 500);
    assert!(matches!(r.body, ReplyBody::Text(ref t) if t == "Database connection error"));
}

#[test]
fn public_part_of_a_user() {
    let r = UserResponse::from(user(true));
    assert_eq!(r.id, ID);
    assert_eq!(r.username, "grace");
    assert_eq!(r.email, "grace@example.com");
    assert_eq!(r.full_name, "Grace Hopper");
    assert!(r.is_admin);
    assert!(r.is_active);
}
