use rust_axum::clock::Timestamp;
use rust_axum::error::{AppError, DbError};
use rust_axum::handlers::auth_handler::{
    change_password, login, logout, register, LoginAction, LoginEvent, LoginFlow, LogoutAction,
    LogoutFlow, PasswordChangeAction, PasswordChangeEvent, RegisterAction, RegisterEvent,
};
use rust_axum::services::password::{
    check_password, hash_password, CheckOutcome, HashResult, PasswordCheck, PasswordHash,
};
use rust_axum::models::{ChangePasswordRequest, CreateUserRequest, LoginUserRequest, User};
use rust_axum::reply::{Reply, ReplyBody};
use rust_axum::services::cookie::CookieEffect;

const ID: u128 = 0x0190_0000_0000_7000_8000_0000_0000_0001;

fn real_hash(password: &str) -> String {
    match hash_password(password.to_string()).into_result() {
        HashResult::Hashed(h) => h,
        other => panic!("hashing failed: {:?}", other),
    }
}

#[test]
fn new_hashes_are_cost_ten_bcrypt() {
    let h = real_hash("correct horse");
    assert_eq!(h.len(), 60);
    assert!(h.starts_with("$2b$10$"));
    assert!(accepts("correct horse", &h));
    assert!(!accepts("wrong horse", &h));
}

fn accepts(password: &str, hash: &str) -> bool {
    check_password(password.to_string(), hash.to_string()).outcome() == CheckOutcome::Verified(true)
}

fn user(username: &str, hash: &str) -> User {
    User {
        id: ID,
        full_name: "Ada Lovelace".to_string(),
        username: username.to_string(),
        email: "ada@example.com".to_string(),
        password: hash.to_string(),
        is_admin: false,
        is_active: true,
        created_at: Timestamp { secs: 1_700_000_000, nanos: 0 },
        updated_at: None,
    }
}

fn auth_body(r: &Reply) -> (String, String, Option<Vec<String>>, Option<u128>) {
    match &r.body {
        ReplyBody::Auth(a) => (
            a.status.clone(),
            a.message.clone(),
            a.token.clone(),
            a.data.as_ref().map(|d| d.id),
        ),
        other => panic!("unexpected body {:?}", other),
    }
}

fn login_req(username: &str, password: &str) -> LoginUserRequest {
    LoginUserRequest { username: username.to_string(), password: password.to_string() }
}

fn finish_err(a: LoginAction) -> AppError {
    match a {
        LoginAction::Finish(Err(e)) => e,
        other => panic!("unexpected action {:?}", other),
    }
}

#[test]
fn login_happy_path() {
    let (flow, action) = login(login_req("AdA", "pw"), true);
    match action {
        LoginAction::FindUser { username } => assert_eq!(username, "ada"),
        other => panic!("unexpected action {:?}", other),
    }
    let stored = real_hash("pw");
    let (flow, action) = flow.step(LoginEvent::UserFound(Ok(user("ada", &stored))));
    let check = match action {
        LoginAction::VerifyPassword { password, hash } => {
            assert_eq!(password, "pw");
            assert_eq!(hash, stored);
            check_password(password, hash)
        }
        other => panic!("unexpected action {:?}", other),
    };
    let (flow, action) = flow.step(LoginEvent::PasswordChecked(check));
    match action {
        LoginAction::IssueToken { user_id } => assert_eq!(user_id, ID),
        other => panic!("unexpected action {:?}", other),
    }
    let (flow, action) = flow.step(LoginEvent::TokenIssued(Ok("tok".to_string())));
    match action {
        LoginAction::ActivateUser { user_id, cookie } => {
            assert_eq!(user_id, ID);
            assert_eq!(cookie.value, "tok");
            assert!(cookie.secure);
        }
        other => panic!("unexpected action {:?}", other),
    }
    let (flow, action) = flow.step(LoginEvent::UserActivated(Ok(user("ada", &stored))));
    assert!(matches!(flow, LoginFlow::Finished));
    match action {
        LoginAction::Finish(Ok(r)) => {
            assert_eq!(r.status, 200);
            let (status, message, token, data) = auth_body(&r);
            assert_eq!(status, "success");
            assert_eq!(message, "Login Successfull!!");
            assert_eq!(token, Some(vec!["tok".to_string()]));
            assert_eq!(data, Some(ID));
        }
        other => panic!("unexpected action {:?}", other),
    }
}

#[test]
fn login_unknown_user_and_wrong_password_look_alike() {
    let (flow, _) = login(login_req("nobody", "pw"), false);
    let (_, a) = flow.step(LoginEvent::UserFound(Err(DbError::NotFound)));
    assert!(matches!(finish_err(a), AppError::InvalidCredentials));

    let stored = real_hash("right");
    let (flow, _) = login(login_req("ada", "wrong"), false);
    let (flow, _) = flow.step(LoginEvent::UserFound(Ok(user("ada", &stored))));
    let (_, a) = flow.step(LoginEvent::PasswordChecked(check_password("wrong".to_string(), stored)));
    assert!(matches!(finish_err(a), AppError::InvalidCredentials));
}

#[test]
fn login_failures() {
    // a stored hash that bcrypt refuses
    let (flow, _) = login(login_req("ada", "pw"), false);
    let (flow, _) = flow.step(LoginEvent::UserFound(Ok(user("ada", "$hash"))));
    let (_, a) = flow.step(LoginEvent::PasswordChecked(check_password("pw".to_string(), "$hash".to_string())));
    assert!(matches!(finish_err(a), AppError::InvalidCredentials));

    let stored = real_hash("pw");
    let start = || {
        let (flow, _) = login(login_req("ada", "pw"), false);
        flow.step(LoginEvent::UserFound(Ok(user("ada", &stored)))).0
    };
    let (_, a) = start().step(LoginEvent::PasswordChecked(PasswordCheck::task_failed()));
    assert!(matches!(finish_err(a), AppError::InternalServerError));
    // a check of another password is no answer to this one
    let (_, a) = start().step(LoginEvent::PasswordChecked(check_password("other".to_string(), stored.clone())));
    assert!(matches!(finish_err(a), AppError::InternalServerError));

    let verified = || check_password("pw".to_string(), stored.clone());
    let (flow, _) = start().step(LoginEvent::PasswordChecked(verified()));
    let (_, a) = flow.step(LoginEvent::TokenIssued(Err(AppError::InternalServerError)));
    assert!(matches!(finish_err(a), AppError::InternalServerError));

    let (flow, _) = start().step(LoginEvent::PasswordChecked(verified()));
    let (flow, _) = flow.step(LoginEvent::TokenIssued(Ok("t".to_string())));
    let (_, a) = flow.step(LoginEvent::UserActivated(Err(DbError::Failed("x".to_string()))));
    assert!(matches!(finish_err(a), AppError::Database(DbError::Failed(_))));

    // a report that does not belong to the step
    let (_, a) = start().step(LoginEvent::TokenIssued(Ok("t".to_string())));
    assert!(matches!(finish_err(a), AppError::InternalServerError));
}

fn create_req() -> CreateUserRequest {
    CreateUserRequest {
        full_name: "Ada Lovelace".to_string(),
        username: "AdaL".to_string(),
        email: "Ada@Example.COM".to_string(),
        password: "secret1".to_string(),
    }
}

#[test]
fn registration_happy_path() {
    let (flow, action) = register(create_req(), false);
    match action {
        RegisterAction::QueryExists { sql, value } => {
            assert_eq!(sql, "SELECT EXISTS(SELECT 1 FROM users WHERE username = $1) AS exists");
            assert_eq!(value, "adal");
        }
        other => panic!("unexpected action {:?}", other),
    }
    let (flow, action) = flow.step(RegisterEvent::ExistsChecked(Ok(false)));
    match action {
        RegisterAction::QueryExists { sql, value } => {
            assert_eq!(sql, "SELECT EXISTS(SELECT 1 FROM users WHERE email = $1) AS exists");
            assert_eq!(value, "Ada@Example.COM");
        }
        other => panic!("unexpected action {:?}", other),
    }
    let (flow, action) = flow.step(RegisterEvent::ExistsChecked(Ok(false)));
    let hashed = match action {
        RegisterAction::HashPassword { password } => {
            assert_eq!(password, "secret1");
            hash_password(password)
        }
        other => panic!("unexpected action {:?}", other),
    };
    let (flow, action) = flow.step(RegisterEvent::PasswordHashed(hashed));
    match action {
        RegisterAction::InsertUser { full_name, username, email, password_hash } => {
            assert_eq!(full_name, "Ada Lovelace");
            assert_eq!(username, "adal");
            assert_eq!(email, "ada@example.com");
            assert!(accepts("secret1", &password_hash));
            assert!(!accepts("secret2", &password_hash));
        }
        other => panic!("unexpected action {:?}", other),
    }
    let (flow, action) = flow.step(RegisterEvent::UserInserted(Ok(user("adal", "$h"))));
    assert!(matches!(action, RegisterAction::IssueToken { user_id } if user_id == ID));
    let (_, action) = flow.step(RegisterEvent::TokenIssued(Ok("tok".to_string())));
    match action {
        RegisterAction::Finish(CookieEffect::Store(cookie), Ok(r)) => {
            assert_eq!(cookie.value, "tok");
            assert_eq!(cookie.name, "accessToken");
            assert_eq!(r.status, 201);
            let (status, message, token, data) = auth_body(&r);
            assert_eq!(status, "success");
            assert_eq!(message, "Resgistration Successfull!!");
            assert_eq!(token, Some(vec!["tok".to_string()]));
            assert_eq!(data, Some(ID));
        }
        other => panic!("unexpected action {:?}", other),
    }
}

fn register_err(a: RegisterAction) -> AppError {
    match a {
        RegisterAction::Finish(CookieEffect::Unchanged, Err(e)) => e,
        other => panic!("unexpected action {:?}", other),
    }
}

#[test]
fn registration_reports_every_taken_field() {
    let (flow, _) = register(create_req(), false);
    let (flow, _) = flow.step(RegisterEvent::ExistsChecked(Ok(true)));
    let (_, a) = flow.step(RegisterEvent::ExistsChecked(Ok(true)));
    match register_err(a) {
        AppError::Conflict(fields) => assert_eq!(fields, vec!["username".to_string(), "email".to_string()]),
        other => panic!("unexpected error {:?}", other),
    }

    let (flow, _) = register(create_req(), false);
    let (flow, _) = flow.step(RegisterEvent::ExistsChecked(Ok(false)));
    let (_, a) = flow.step(RegisterEvent::ExistsChecked(Ok(true)));
    match register_err(a) {
        AppError::Conflict(fields) => assert_eq!(fields, vec!["email".to_string()]),
        other => panic!("unexpected error {:?}", other),
    }
}

#[test]
fn registration_failures() {
    let (flow, _) = register(create_req(), false);
    let (_, a) = flow.step(RegisterEvent::ExistsChecked(Err(DbError::Failed("down".to_string()))));
    assert!(matches!(register_err(a), AppError::Database(DbError::Failed(_))));

    let hashing = || {
        let (flow, _) = register(create_req(), false);
        let (flow, _) = flow.step(RegisterEvent::ExistsChecked(Ok(false)));
        flow.step(RegisterEvent::ExistsChecked(Ok(false))).0
    };
    let (_, a) = hashing().step(RegisterEvent::PasswordHashed(hash_password("other".to_string())));
    assert!(matches!(register_err(a), AppError::InternalServerError));
    let (_, a) = hashing().step(RegisterEvent::PasswordHashed(PasswordHash::task_failed()));
    assert!(matches!(register_err(a), AppError::InternalServerError));

    let (flow, _) = hashing().step(RegisterEvent::PasswordHashed(hash_password("secret1".to_string())));
    let (_, a) = flow.step(RegisterEvent::UserInserted(Err(DbError::NotFound)));
    assert!(matches!(register_err(a), AppError::Database(DbError::NotFound)));

    let (flow, _) = hashing().step(RegisterEvent::PasswordHashed(hash_password("secret1".to_string())));
    let (flow, _) = flow.step(RegisterEvent::UserInserted(Ok(user("adal", "$h"))));
    let (_, a) = flow.step(RegisterEvent::TokenIssued(Err(AppError::InternalServerError)));
    assert!(matches!(register_err(a), AppError::InternalServerError));
}

#[test]
fn logout_deactivates_and_removes_the_cookie() {
    let (flow, action) = logout(&user("ada", "$h"));
    assert!(matches!(action, LogoutAction::DeactivateUser { user_id } if user_id == ID));
    let (flow, action) = flow.step(Ok(user("ada", "$h")));
    assert!(matches!(flow, LogoutFlow::Finished));
    match action {
        LogoutAction::Finish(CookieEffect::Remove(removal), Ok(r)) => {
            assert_eq!(removal.name, "accessToken");
            assert_eq!(removal.path, "/");
            assert_eq!(r.status, 200);
            let (status, message, token, data) = auth_body(&r);
            assert_eq!(status, "success");
            assert_eq!(message, "Logout Successfull!!");
            assert_eq!(token, None);
            assert_eq!(data, None);
        }
        other => panic!("unexpected action {:?}", other),
    }
    let (_, action) = LogoutFlow::AwaitingDeactivation.step(Err(DbError::NotFound));
    assert!(matches!(
        action,
        LogoutAction::Finish(CookieEffect::Unchanged, Err(AppError::Database(DbError::NotFound)))
    ));
}

fn change_req(old: &str, new: &str) -> ChangePasswordRequest {
    ChangePasswordRequest { old_password: old.to_string(), new_password: new.to_string() }
}

fn change_err(a: PasswordChangeAction) -> AppError {
    match a {
        PasswordChangeAction::Finish(Err(e)) => e,
        other => panic!("unexpected action {:?}", other),
    }
}

#[test]
fn password_change_happy_path() {
    let old = real_hash("oldpass");
    let me = user("ada", &old);
    let (flow, action) = change_password(&me, change_req("oldpass", "newpass"));
    assert!(matches!(action, PasswordChangeAction::FindUser { ref username } if username == "ada"));
    let (flow, action) = flow.step(PasswordChangeEvent::UserFound(Ok(user("ada", &old))));
    let check = match action {
        PasswordChangeAction::VerifyPassword { password, hash } => {
            assert_eq!(password, "oldpass");
            assert_eq!(hash, old);
            check_password(password, hash)
        }
        other => panic!("unexpected action {:?}", other),
    };
    let (flow, action) = flow.step(PasswordChangeEvent::PasswordChecked(check));
    assert!(matches!(action, PasswordChangeAction::HashPassword { ref password } if password == "newpass"));
    let (flow, action) = flow.step(PasswordChangeEvent::PasswordHashed(hash_password("newpass".to_string())));
    match action {
        PasswordChangeAction::UpdatePassword { user_id, password_hash } => {
            assert_eq!(user_id, ID);
            assert!(accepts("newpass", &password_hash));
            assert!(!accepts("oldpass", &password_hash));
        }
        other => panic!("unexpected action {:?}", other),
    }
    let (_, action) = flow.step(PasswordChangeEvent::PasswordUpdated(Ok(user("ada", "$new"))));
    match action {
        PasswordChangeAction::Finish(Ok(r)) => {
            assert_eq!(r.status, 200);
            let (_, message, token, data) = auth_body(&r);
            assert_eq!(message, "Password changed successfully!");
            assert_eq!(token, None);
            assert_eq!(data, None);
        }
        other => panic!("unexpected action {:?}", other),
    }
}

#[test]
fn password_change_failures() {
    let old = real_hash("oldpass");
    let me = user("ada", &old);
    let (flow, _) = change_password(&me, change_req("oldpass", "newpass"));
    let (_, a) = flow.step(PasswordChangeEvent::UserFound(Err(DbError::NotFound)));
    assert!(matches!(change_err(a), AppError::Unauthorized));

    let checking = |stored: &str| {
        let (flow, _) = change_password(&me, change_req("oldpass", "newpass"));
        flow.step(PasswordChangeEvent::UserFound(Ok(user("ada", stored)))).0
    };
    let check = |password: &str, stored: &str| check_password(password.to_string(), stored.to_string());
    let other = real_hash("otherpass");
    let (_, a) = checking(&other).step(PasswordChangeEvent::PasswordChecked(check("oldpass", &other)));
    assert!(matches!(change_err(a), AppError::InvalidCredentials));
    let (_, a) = checking("$old").step(PasswordChangeEvent::PasswordChecked(check("oldpass", "$old")));
    assert!(matches!(change_err(a), AppError::InvalidCredentials));
    let (_, a) = checking(&old).step(PasswordChangeEvent::PasswordChecked(PasswordCheck::task_failed()));
    assert!(matches!(change_err(a), AppError::InternalServerError));

    let (flow, _) = checking(&old).step(PasswordChangeEvent::PasswordChecked(check("oldpass", &old)));
    let (_, a) = flow.step(PasswordChangeEvent::PasswordHashed(PasswordHash::task_failed()));
    assert!(matches!(change_err(a), AppError::InternalServerError));

    let (flow, _) = checking(&old).step(PasswordChangeEvent::PasswordChecked(check("oldpass", &old)));
    let (_, a) = flow.step(PasswordChangeEvent::PasswordHashed(hash_password("wrongnew".to_string())));
    assert!(matches!(change_err(a), AppError::InternalServerError));

    let (flow, _) = checking(&old).step(PasswordChangeEvent::PasswordChecked(check("oldpass", &old)));
    let (flow, _) = flow.step(PasswordChangeEvent::PasswordHashed(hash_password("newpass".to_string())));
    let (_, a) = flow.step(PasswordChangeEvent::PasswordUpdated(Err(DbError::Failed("x".to_string()))));
    assert!(matches!(change_err(a), AppError::Database(DbError::Failed(_))));
}
