//! The service's data: users, the requests it accepts and their validation
//! rules, and the JSON answer of the authentication endpoints.
use vstd::prelude::*;
use vstd::string::*;

use crate::clock::{utc_now, Timestamp, MAX_TIMESTAMP_SECS};
use crate::ids::{is_rfc_variant, is_version_7, new_v7_id};
use crate::reply::{Reply, ReplyBody, BAD_REQUEST};

verus! {

/// A stored user account.
#[derive(Clone, Debug)]
pub struct User {
    pub id: u128,
    pub full_name: String,
    pub username: String,
    pub email: String,
    /// The bcrypt hash of the password; never part of a reply about the user.
    pub password: String,
    pub is_admin: bool,
    pub is_active: bool,
    pub created_at: Timestamp,
    pub updated_at: Option<Timestamp>,
}

impl User {
    /// A new, active, non-admin account with a fresh version 7 identifier,
    /// stamped with the current time and never updated.
    pub fn new(full_name: String, username: String, email: String, password: String) -> (u: Self)
        ensures
            is_version_7(u.id),
            is_rfc_variant(u.id),
            u.full_name == full_name,
            u.username == username,
            u.email == email,
            u.password == password,
            !u.is_admin,
            u.is_active,
            0 <= u.created_at.secs <= MAX_TIMESTAMP_SECS,
            u.created_at.nanos < 1_000_000_000,
            u.updated_at is None,
    {
        let now = utc_now();
        User {
            id: new_v7_id(),
            full_name,
            username,
            email,
            password,
            is_admin: false,
            is_active: true,
            created_at: now,
            updated_at: None,
        }
    }
}

/// The public part of a user account, as the authentication endpoints return it.
#[derive(Clone, Debug)]
pub struct UserResponse {
    pub id: u128,
    pub full_name: String,
    pub username: String,
    pub email: String,
    pub is_admin: bool,
    pub is_active: bool,
}

/// The public part of `user`: every field but the password hash and the
/// timestamps.
pub open spec fn public_part(user: User) -> UserResponse {
    UserResponse {
        id: user.id,
        full_name: user.full_name,
        username: user.username,
        email: user.email,
        is_admin: user.is_admin,
        is_active: user.is_active,
    }
}

impl vstd::std_specs::convert::FromSpecImpl<User> for UserResponse {
    open spec fn obeys_from_spec() -> bool {
        true
    }

    open spec fn from_spec(user: User) -> UserResponse {
        public_part(user)
    }
}

impl From<User> for UserResponse {
    fn from(user: User) -> Self {
        UserResponse {
            id: user.id,
            username: user.username,
            email: user.email,
            full_name: user.full_name,
            is_admin: user.is_admin,
            is_active: user.is_active,
        }
    }
}

/// A user account as listed: every field but the password hash.
#[derive(Clone, Debug)]
pub struct UserListing {
    pub id: u128,
    pub full_name: String,
    pub username: String,
    pub email: String,
    pub is_admin: bool,
    pub is_active: bool,
    pub created_at: Timestamp,
    pub updated_at: Option<Timestamp>,
}

/// The listing of `user`.
pub open spec fn listing_of(user: User) -> UserListing {
    UserListing {
        id: user.id,
        full_name: user.full_name,
        username: user.username,
        email: user.email,
        is_admin: user.is_admin,
        is_active: user.is_active,
        created_at: user.created_at,
        updated_at: user.updated_at,
    }
}

impl UserListing {
    /// The listing of `user`, without its password hash.
    pub fn of(user: User) -> (l: UserListing)
        ensures
            l == listing_of(user),
    {
        UserListing {
            id: user.id,
            full_name: user.full_name,
            username: user.username,
            email: user.email,
            is_admin: user.is_admin,
            is_active: user.is_active,
            created_at: user.created_at,
            updated_at: user.updated_at,
        }
    }
}

/// The JSON answer of the authentication endpoints.
#[derive(Clone, Debug)]
pub struct AuthJsonResponse {
    pub status: String,
    pub message: String,
    pub token: Option<Vec<String>>,
    pub data: Option<UserResponse>,
}

/// Payload of a registration request.
#[derive(Clone, Debug)]
pub struct CreateUserRequest {
    pub full_name: String,
    pub username: String,
    pub email: String,
    pub password: String,
}

/// Payload of a login request.
#[derive(Clone, Debug)]
pub struct LoginUserRequest {
    pub username: String,
    pub password: String,
}

/// Payload of a password change.
#[derive(Clone, Debug)]
pub struct ChangePasswordRequest {
    pub old_password: String,
    pub new_password: String,
}

/// Payload of a profile update; every field is optional and unchecked.
#[derive(Clone, Debug)]
pub struct UpdateUserPayload {
    pub full_name: Option<String>,
    pub username: Option<String>,
    pub email: Option<String>,
}

/// One broken validation rule: the field, the rule's code (`length` or
/// `email`), its message, the minimum length where the rule has one, and the
/// offending value.
#[derive(Clone, Debug)]
pub struct FieldError {
    pub field: String,
    pub code: String,
    pub message: String,
    pub min: Option<u64>,
    pub value: String,
}

/// A `FieldError` with its texts taken as character sequences.
pub struct FieldErrorView {
    pub field: Seq<char>,
    pub code: Seq<char>,
    pub message: Seq<char>,
    pub min: Option<u64>,
    pub value: Seq<char>,
}

impl View for FieldError {
    type V = FieldErrorView;

    open spec fn view(&self) -> FieldErrorView {
        FieldErrorView {
            field: self.field@,
            code: self.code@,
            message: self.message@,
            min: self.min,
            value: self.value@,
        }
    }
}

/// The views of a list of field errors.
pub open spec fn error_views(errors: Seq<FieldError>) -> Seq<FieldErrorView> {
    errors.map_values(|e: FieldError| e@)
}

/// The error a `length(min = ..)` rule reports for `value`, if it is shorter
/// than `min` characters.
pub open spec fn length_violation(
    field: Seq<char>,
    message: Seq<char>,
    min: u64,
    value: Seq<char>,
) -> Seq<FieldErrorView> {
    if value.len() < min {
        seq![FieldErrorView { field, code: "length"@, message, min: Some(min), value }]
    } else {
        seq![]
    }
}

/// What the e-mail check of the validation library decides for a text.
pub uninterp spec fn valid_email(s: Seq<char>) -> bool;

/// Checks an address through `validator::ValidateEmail::validate_email`; the
/// decision (user part, domain part, IDNA and literal-address rules) is a
/// function of the text alone and is named `valid_email`.
#[verifier::external_body]
fn is_valid_email(s: &str) -> (r: bool)
    ensures
        r == valid_email(s@),
{
    validator::ValidateEmail::validate_email(&s)
}

/// The error an `email` rule reports for `value`, if it is not an address.
pub open spec fn email_violation(
    field: Seq<char>,
    message: Seq<char>,
    value: Seq<char>,
) -> Seq<FieldErrorView> {
    if valid_email(value) {
        seq![]
    } else {
        seq![FieldErrorView { field, code: "email"@, message, min: None, value }]
    }
}

proof fn lemma_push_views(errors: Seq<FieldError>, e: FieldError)
    ensures
        error_views(errors.push(e)) == error_views(errors).push(e@),
{
    assert(error_views(errors.push(e)) =~= error_views(errors).push(e@));
}

/// Appends the error of a `length(min = ..)` rule when `value` is too short.
fn check_length(errors: &mut Vec<FieldError>, field: &str, message: &str, min: u64, value: &String)
    ensures
        error_views(final(errors)@) == error_views(old(errors)@) + length_violation(
            field@,
            message@,
            min,
            value@,
        ),
{
    let n = value.as_str().unicode_len();
    if (n as u64) < min {
        let e = FieldError {
            field: String::from_str(field),
            code: String::from_str("length"),
            message: String::from_str(message),
            min: Some(min),
            value: value.clone(),
        };
        proof {
            lemma_push_views(errors@, e);
        }
        errors.push(e);
        assert(error_views(errors@) =~= error_views(old(errors)@) + length_violation(
            field@,
            message@,
            min,
            value@,
        ));
    } else {
        assert(error_views(errors@) =~= error_views(old(errors)@) + length_violation(
            field@,
            message@,
            min,
            value@,
        ));
    }
}

/// Appends the error of an `email` rule when `value` is not an address.
fn check_email(errors: &mut Vec<FieldError>, field: &str, message: &str, value: &String)
    ensures
        error_views(final(errors)@) == error_views(old(errors)@) + email_violation(
            field@,
            message@,
            value@,
        ),
{
    if !is_valid_email(value.as_str()) {
        let e = FieldError {
            field: String::from_str(field),
            code: String::from_str("email"),
            message: String::from_str(message),
            min: None,
            value: value.clone(),
        };
        proof {
            lemma_push_views(errors@, e);
        }
        errors.push(e);
        assert(error_views(errors@) =~= error_views(old(errors)@) + email_violation(
            field@,
            message@,
            value@,
        ));
    } else {
        assert(error_views(errors@) =~= error_views(old(errors)@) + email_violation(
            field@,
            message@,
            value@,
        ));
    }
}

/// A payload with validation rules: `violations` lists the rules it breaks, in
/// the order its fields are declared.
pub trait Validate {
    spec fn violations(&self) -> Seq<FieldErrorView>;

    fn validate(&self) -> (r: Result<(), Vec<FieldError>>)
        ensures
            r is Ok <==> self.violations().len() == 0,
            r matches Err(errors) ==> error_views(errors@) == self.violations(),
    ;
}

/// Turns the collected errors into the result of a validation.
fn finish_validation(errors: Vec<FieldError>) -> (r: Result<(), Vec<FieldError>>)
    ensures
        r is Ok <==> errors@.len() == 0,
        r matches Err(e) ==> e == errors,
{
    if errors.len() == 0 {
        Ok(())
    } else {
        Err(errors)
    }
}

impl Validate for CreateUserRequest {
    open spec fn violations(&self) -> Seq<FieldErrorView> {
        length_violation("full_name"@, "Full name is required"@, 3, self.full_name@)
            + length_violation(
            "username"@,
            "Username must be at least 3 characters"@,
            3,
            self.username@,
        ) + email_violation("email"@, "Must be a valid email address"@, self.email@)
            + length_violation(
            "password"@,
            "Password must be at least 6 characters"@,
            6,
            self.password@,
        )
    }

    fn validate(&self) -> (r: Result<(), Vec<FieldError>>) {
        let mut errors: Vec<FieldError> = Vec::new();
        assert(error_views(errors@) =~= Seq::<FieldErrorView>::empty());
        check_length(&mut errors, "full_name", "Full name is required", 3, &self.full_name);
        check_length(
            &mut errors,
            "username",
            "Username must be at least 3 characters",
            3,
            &self.username,
        );
        check_email(&mut errors, "email", "Must be a valid email address", &self.email);
        check_length(
            &mut errors,
            "password",
            "Password must be at least 6 characters",
            6,
            &self.password,
        );
        assert(error_views(errors@) =~= self.violations());
        assert(error_views(errors@).len() == errors@.len());
        finish_validation(errors)
    }
}

impl Validate for LoginUserRequest {
    open spec fn violations(&self) -> Seq<FieldErrorView> {
        length_violation("username"@, "Username is required"@, 3, self.username@)
            + length_violation("password"@, "Password cannot be empty"@, 1, self.password@)
    }

    fn validate(&self) -> (r: Result<(), Vec<FieldError>>) {
        let mut errors: Vec<FieldError> = Vec::new();
        assert(error_views(errors@) =~= Seq::<FieldErrorView>::empty());
        check_length(&mut errors, "username", "Username is required", 3, &self.username);
        check_length(&mut errors, "password", "Password cannot be empty", 1, &self.password);
        assert(error_views(errors@) =~= self.violations());
        assert(error_views(errors@).len() == errors@.len());
        finish_validation(errors)
    }
}

impl Validate for ChangePasswordRequest {
    open spec fn violations(&self) -> Seq<FieldErrorView> {
        length_violation(
            "old_password"@,
            "Password must be at least 6 characters"@,
            6,
            self.old_password@,
        ) + length_violation(
            "new_password"@,
            "Password must be at least 6 characters"@,
            6,
            self.new_password@,
        )
    }

    fn validate(&self) -> (r: Result<(), Vec<FieldError>>) {
        let mut errors: Vec<FieldError> = Vec::new();
        assert(error_views(errors@) =~= Seq::<FieldErrorView>::empty());
        check_length(
            &mut errors,
            "old_password",
            "Password must be at least 6 characters",
            6,
            &self.old_password,
        );
        check_length(
            &mut errors,
            "new_password",
            "Password must be at least 6 characters",
            6,
            &self.new_password,
        );
        assert(error_views(errors@) =~= self.violations());
        assert(error_views(errors@).len() == errors@.len());
        finish_validation(errors)
    }
}

impl Validate for UpdateUserPayload {
    open spec fn violations(&self) -> Seq<FieldErrorView> {
        seq![]
    }

    fn validate(&self) -> (r: Result<(), Vec<FieldError>>) {
        Ok(())
    }
}

/// A request payload that passed its validation rules.
pub struct ValidJson<T>(pub T);

/// The answer to a payload that breaks validation rules: `400 Bad Request`
/// with `{"error": "Validation failed", "details": ..}` listing the errors.
pub open spec fn is_validation_reply(r: Reply, violations: Seq<FieldErrorView>) -> bool {
    &&& r.status == BAD_REQUEST
    &&& r.body matches ReplyBody::Validation { error, details }
    &&& error@ == "Validation failed"@
    &&& error_views(details@) == violations
}

impl<T: Validate> ValidJson<T> {
    /// Accepts a parsed payload if it breaks no validation rule, and otherwise
    /// answers with the list of broken rules.
    pub fn accept(value: T) -> (r: Result<ValidJson<T>, Reply>)
        ensures
            r is Ok <==> value.violations().len() == 0,
            r matches Ok(v) ==> v.0 == value,
            r matches Err(reply) ==> is_validation_reply(reply, value.violations()),
    {
        match value.validate() {
            Ok(()) => Ok(ValidJson(value)),
            Err(errors) => Err(
                Reply {
                    status: BAD_REQUEST,
                    body: ReplyBody::Validation {
                        error: String::from_str("Validation failed"),
                        details: errors,
                    },
                },
            ),
        }
    }
}

/// `errors` reports that `value`, in `field`, breaks a `length(min = min)`
/// rule with `message`.
pub open spec fn reports_too_short(
    errors: Seq<FieldErrorView>,
    field: Seq<char>,
    message: Seq<char>,
    min: u64,
    value: Seq<char>,
) -> bool {
    exists|i: int|
        0 <= i < errors.len() && #[trigger] errors[i] == (FieldErrorView {
            field,
            code: "length"@,
            message,
            min: Some(min),
            value,
        })
}

/// `errors` reports that `value`, in `field`, breaks an `email` rule with
/// `message`.
pub open spec fn reports_not_email(
    errors: Seq<FieldErrorView>,
    field: Seq<char>,
    message: Seq<char>,
    value: Seq<char>,
) -> bool {
    exists|i: int|
        0 <= i < errors.len() && #[trigger] errors[i] == (FieldErrorView {
            field,
            code: "email"@,
            message,
            min: None,
            value,
        })
}

/// One for a broken rule, zero for a kept one.
pub open spec fn flag(broken: bool) -> nat {
    if broken {
        1
    } else {
        0
    }
}

/// The rules of a password change: the old and the new password each have
/// at least six characters. Each rule that a request breaks is reported, with
/// the field, the code `length`, the rule's message, the minimum and the
/// value, and nothing else is: so the request is refused exactly when a
/// password is shorter than six characters.
pub proof fn change_password_rules(r: ChangePasswordRequest)
    ensures
        r.old_password@.len() < 6 ==> reports_too_short(
            r.violations(),
            "old_password"@,
            "Password must be at least 6 characters"@,
            6,
            r.old_password@,
        ),
        r.new_password@.len() < 6 ==> reports_too_short(
            r.violations(),
            "new_password"@,
            "Password must be at least 6 characters"@,
            6,
            r.new_password@,
        ),
        r.violations().len() == flag(r.old_password@.len() < 6) + flag(r.new_password@.len() < 6),
        r.violations().len() == 0 <==> r.old_password@.len() >= 6 && r.new_password@.len() >= 6,
{
    let v = r.violations();
    let first: int = if r.old_password@.len() < 6 { 1 } else { 0 };
    if r.old_password@.len() < 6 {
        assert(v[0] == FieldErrorView {
            field: "old_password"@,
            code: "length"@,
            message: "Password must be at least 6 characters"@,
            min: Some(6u64),
            value: r.old_password@,
        });
    }
    if r.new_password@.len() < 6 {
        assert(v[first] == FieldErrorView {
            field: "new_password"@,
            code: "length"@,
            message: "Password must be at least 6 characters"@,
            min: Some(6u64),
            value: r.new_password@,
        });
    }
}

/// The rules of a login: a user name of at least three characters and a
/// password that is not empty. Each rule that a request breaks is reported
/// with its field, code, message, minimum and value, and nothing else is.
pub proof fn login_rules(r: LoginUserRequest)
    ensures
        r.username@.len() < 3 ==> reports_too_short(
            r.violations(),
            "username"@,
            "Username is required"@,
            3,
            r.username@,
        ),
        r.password@.len() < 1 ==> reports_too_short(
            r.violations(),
            "password"@,
            "Password cannot be empty"@,
            1,
            r.password@,
        ),
        r.violations().len() == flag(r.username@.len() < 3) + flag(r.password@.len() < 1),
        r.violations().len() == 0 <==> r.username@.len() >= 3 && r.password@.len() >= 1,
{
    let v = r.violations();
    let first: int = if r.username@.len() < 3 { 1 } else { 0 };
    if r.username@.len() < 3 {
        assert(v[0] == FieldErrorView {
            field: "username"@,
            code: "length"@,
            message: "Username is required"@,
            min: Some(3u64),
            value: r.username@,
        });
    }
    if r.password@.len() < 1 {
        assert(v[first] == FieldErrorView {
            field: "password"@,
            code: "length"@,
            message: "Password cannot be empty"@,
            min: Some(1u64),
            value: r.password@,
        });
    }
}

/// The rules of a registration: a full name and a user name of at least
/// three characters, an e-mail address the validation library accepts, and a
/// password of at least six characters. Each rule that a request breaks is
/// reported with its field, code, message, minimum and value, and nothing
/// else is.
pub proof fn registration_rules(r: CreateUserRequest)
    ensures
        r.full_name@.len() < 3 ==> reports_too_short(
            r.violations(),
            "full_name"@,
            "Full name is required"@,
            3,
            r.full_name@,
        ),
        r.username@.len() < 3 ==> reports_too_short(
            r.violations(),
            "username"@,
            "Username must be at least 3 characters"@,
            3,
            r.username@,
        ),
        !valid_email(r.email@) ==> reports_not_email(
            r.violations(),
            "email"@,
            "Must be a valid email address"@,
            r.email@,
        ),
        r.password@.len() < 6 ==> reports_too_short(
            r.violations(),
            "password"@,
            "Password must be at least 6 characters"@,
            6,
            r.password@,
        ),
        r.violations().len() == flag(r.full_name@.len() < 3) + flag(r.username@.len() < 3) + flag(
            !valid_email(r.email@),
        ) + flag(r.password@.len() < 6),
        r.violations().len() == 0 <==> r.full_name@.len() >= 3 && r.username@.len() >= 3
            && valid_email(r.email@) && r.password@.len() >= 6,
{
    let v = r.violations();
    let a: int = if r.full_name@.len() < 3 { 1 } else { 0 };
    let b: int = a + if r.username@.len() < 3 { 1int } else { 0int };
    let c: int = b + if !valid_email(r.email@) { 1int } else { 0int };
    if r.full_name@.len() < 3 {
        assert(v[0] == FieldErrorView {
            field: "full_name"@,
            code: "length"@,
            message: "Full name is required"@,
            min: Some(3u64),
            value: r.full_name@,
        });
    }
    if r.username@.len() < 3 {
        assert(v[a] == FieldErrorView {
            field: "username"@,
            code: "length"@,
            message: "Username must be at least 3 characters"@,
            min: Some(3u64),
            value: r.username@,
        });
    }
    if !valid_email(r.email@) {
        assert(v[b] == FieldErrorView {
            field: "email"@,
            code: "email"@,
            message: "Must be a valid email address"@,
            min: None,
            value: r.email@,
        });
    }
    if r.password@.len() < 6 {
        assert(v[c] == FieldErrorView {
            field: "password"@,
            code: "length"@,
            message: "Password must be at least 6 characters"@,
            min: Some(6u64),
            value: r.password@,
        });
    }
}

/// The authentication endpoints answer with an account's own data: every
/// field of the reply is the account's field of the same name.
pub proof fn public_part_keeps_fields(user: User)
    ensures
        public_part(user).id == user.id,
        public_part(user).full_name == user.full_name,
        public_part(user).username == user.username,
        public_part(user).email == user.email,
        public_part(user).is_admin == user.is_admin,
        public_part(user).is_active == user.is_active,
{
}

/// A listed account carries the stored account's own data: every field of
/// the listing is the account's field of the same name (the password hash is
/// not listed).
pub proof fn listing_keeps_fields(user: User)
    ensures
        listing_of(user).id == user.id,
        listing_of(user).full_name == user.full_name,
        listing_of(user).username == user.username,
        listing_of(user).email == user.email,
        listing_of(user).is_admin == user.is_admin,
        listing_of(user).is_active == user.is_active,
        listing_of(user).created_at == user.created_at,
        listing_of(user).updated_at == user.updated_at,
{
}

/// A payload that breaks rules is answered `400 Bad Request` with
/// `{"error": "Validation failed", "details": ..}`, the details listing the
/// broken rules.
pub proof fn validation_reply_shape(r: Reply, violations: Seq<FieldErrorView>)
    requires
        is_validation_reply(r, violations),
    ensures
        r.status == 400,
        r.body is Validation,
        r.body->Validation_error@ == "Validation failed"@,
        error_views(r.body->Validation_details@) == violations,
{
}

} // verus!
