use rust_axum::models::{
    ChangePasswordRequest, CreateUserRequest, FieldError, LoginUserRequest, UpdateUserPayload,
    Validate, ValidJson,
};
use rust_axum::reply::ReplyBody;

fn create(full_name: &str, username: &str, email: &str, password: &str) -> CreateUserRequest {
    CreateUserRequest {
        full_name: full_name.to_string(),
        username: username.to_string(),
        email: email.to_string(),
        password: password.to_string(),
    }
}

fn summary(errors: &[FieldError]) -> Vec<(String, String, Option<u64>)> {
    errors.iter().map(|e| (e.field.clone(), e.code.clone(), e.min)).collect()
}

#[test]
fn good_registration_passes() {
    assert!(create("Ada Lovelace", "ada", "ada@example.com", "secret1").validate().is_ok());
}

#[test]
fn every_broken_registration_rule_is_reported_in_field_order() {
    let errors = create("Al", "ab", "not-an-email", "12345").validate().unwrap_err();
    assert_eq!(
        summary(&errors),
        vec![
            ("full_name".to_string(), "length".to_string(), Some(3)),
            ("username".to_string(), "length".to_string(), Some(3)),
            ("email".to_string(), "email".to_string(), None),
            ("password".to_string(), "length".to_string(), Some(6)),
        ]
    );
    assert_eq!(errors[0].message, "Full name is required");
    assert_eq!(errors[1].message, "Username must be at least 3 characters");
    assert_eq!(errors[2].message, "Must be a valid email address");
    assert_eq!(errors[3].message, "Password must be at least 6 characters");
    assert_eq!(errors[2].value, "not-an-email");
}

#[test]
fn lengths_count_characters_not_bytes() {
    // three characters, six bytes
    assert!(create("äöü", "äöü", "a@b.co", "ßßßßßß").validate().is_ok());
    let errors = create("äö", "abc", "a@b.co", "secret").validate().unwrap_err();
    assert_eq!(summary(&errors), vec![("full_name".to_string(), "length".to_string(), Some(3))]);
}

#[test]
fn login_rules() {
    let ok = LoginUserRequest { username: "bob".to_string(), password: "x".to_string() };
    assert!(ok.validate().is_ok());
    let bad = LoginUserRequest { username: "bo".to_string(), password: "".to_string() };
    let errors = bad.validate().unwrap_err();
    assert_eq!(errors.len(), 2);
    assert_eq!(errors[0].message, "Username is required");
    assert_eq!(errors[1].message, "Password cannot be empty");
    assert_eq!(errors[1].min, Some(1));
}

#[test]
fn password_change_rules() {
    let ok = ChangePasswordRequest { old_password: "oldpass".to_string(), new_password: "newpass".to_string() };
    assert!(ok.validate().is_ok());
    let bad = ChangePasswordRequest { old_password: "short".to_string(), new_password: "newpass".to_string() };
    let errors = bad.validate().unwrap_err();
    assert_eq!(summary(&errors), vec![("old_password".to_string(), "length".to_string(), Some(6))]);
}

#[test]
fn update_payload_has_no_rules() {
    let p = UpdateUserPayload { full_name: Some("".to_string()), username: None, email: Some("x".to_string()) };
    assert!(p.validate().is_ok());
}

#[test]
fn valid_json_accepts_or_answers_400() {
    let accepted = ValidJson::accept(LoginUserRequest { username: "carol".to_string(), password: "pw".to_string() });
    match accepted {
        Ok(ValidJson(req)) => assert_eq!(req.username, "carol"),
        Err(r) => panic!("refused: {:?}", r),
    }
    let refused = ValidJson::accept(LoginUserRequest { username: "c".to_string(), password: "pw".to_string() });
    match refused {
        Err(r) => {
            assert_eq!(r.status, 400);
            match r.body {
                ReplyBody::Validation { error, details } => {
                    assert_eq!(error, "Validation failed");
                    assert_eq!(details.len(), 1);
                    assert_eq!(details[0].field, "username");
                    assert_eq!(details[0].value, "c");
                }
                other => panic!("unexpected body {:?}", other),
            }
        }
        Ok(_) => panic!("accepted a short user name"),
    }
}

#[test]
fn email_check_uses_the_validation_library() {
    assert!(create("Ada", "ada", "ada@example.com", "secret").validate().is_ok());
    assert!(create("Ada", "ada", "ada@", "secret").validate().is_err());
    assert!(create("Ada", "ada", "", "secret").validate().is_err());
}
