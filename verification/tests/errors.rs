use rust_axum::error::{AppError, DbError};
use rust_axum::reply::{Reply, ReplyBody};

fn error_text(r: &Reply) -> String {
    match &r.body {
        ReplyBody::Error { error } => error.clone(),
        other => panic!("unexpected body {:?}", other),
    }
}

#[test]
fn not_found_row_is_404() {
    let r = AppError::Database(DbError::NotFound).into_response();
    assert_eq!(r.status, 404);
    assert_eq!(error_text(&r), "Resource not found");
}

#[test]
fn other_database_failure_is_500() {
    let r = AppError::Database(DbError::Failed("boom".to_string())).into_response();
    assert_eq!(r.status, 500);
    assert_eq!(error_text(&r), "Internal database error");
}

#[test]
fn plain_errors_have_their_status_and_text() {
    let cases = vec![
        (AppError::UserNotFound, 404, "User not found"),
        (AppError::InternalServerError, 500, "Internal server error"),
        (AppError::InvalidId, 400, "Invalid ID format"),
        (AppError::InvalidCredentials, 401, "Invalid credentials"),
        (AppError::Unauthorized, 401, "Unauthorized"),
        (AppError::Restricted, 403, "Restricted"),
    ];
    for (e, status, text) in cases {
        let r = e.into_response();
        assert_eq!(r.status, status);
        assert_eq!(error_text(&r), text);
    }
}

#[test]
fn conflict_lists_taken_fields() {
    let r = AppError::Conflict(vec!["username".to_string(), "email".to_string()]).into_response();
    assert_eq!(r.status, 409);
    match r.body {
        ReplyBody::Conflict { error, fields, message } => {
            assert_eq!(error, "Conflict");
            assert_eq!(fields, vec!["username".to_string(), "email".to_string()]);
            assert_eq!(message, "These field's value are already in use");
        }
        other => panic!("unexpected body {:?}", other),
    }
}

#[test]
fn error_messages() {
    assert_eq!(AppError::Database(DbError::NotFound).message(), "Database execution error");
    assert_eq!(AppError::UserNotFound.message(), "User not found");
    assert_eq!(AppError::InternalServerError.message(), "Internal server error");
    assert_eq!(AppError::InvalidId.message(), "Invalid UUID format");
    assert_eq!(AppError::InvalidCredentials.message(), "Invalid credentials provided");
    assert_eq!(AppError::Unauthorized.message(), "Unauthorized");
    assert_eq!(AppError::Restricted.message(), "Restricted");
    assert_eq!(AppError::Conflict(vec![]).message(), "Conflict on fields: []");
    let e = AppError::Conflict(vec!["username".to_string(), "email".to_string()]);
    assert_eq!(e.message(), format!("Conflict on fields: {:?}", vec!["username", "email"]));
    let odd = vec!["a\"b".to_string(), "c\\d\ne\u{1}f\u{7f}g\t".to_string()];
    assert_eq!(AppError::Conflict(odd.clone()).message(), format!("Conflict on fields: {:?}", odd));
}

#[test]
fn anyhow_failures_are_internal() {
    let e: AppError = AppError::from(anyhow::Error::msg("disk on fire"));
    assert!(matches!(e, AppError::InternalServerError));
}
