//! Login, registration, logout and password change.
//!
//! Each handler is a flow: `login`, `register`, `logout` and `change_password`
//! start it and name the first action; the flow's `step` takes the report of
//! that action and names the next one, until it finishes with an answer.
use vstd::prelude::*;
use vstd::string::*;

use crate::error::{AppError, DbError};
use crate::ids::{parse_uuid, uuid_to_string};
use crate::models::{
    public_part, AuthJsonResponse, ChangePasswordRequest, CreateUserRequest, LoginUserRequest,
    User, UserResponse,
};
use crate::reply::{Reply, ReplyBody, CREATED, OK};
use crate::services::conflict::{
    answered_taken, check_conflicts, exists_query, taken_columns, ConflictScan, ScanStep,
};
use crate::services::cookie::{
    is_token_cookie, is_token_removal, save_to_cookie, token_removal, CookieEffect, CookieSpec,
};
use crate::services::password::{
    bcrypt_verdict, fresh_hash, CheckOutcome, HashResult, PasswordCheck, PasswordHash,
};
use crate::text::{all_ascii, ascii_lowercase, lowercase_of, to_lowercase};

verus! {

/// `r` is a successful JSON answer of the authentication endpoints, with the
/// given status, message, token and user data.
pub open spec fn is_auth_reply(
    r: Reply,
    status: u16,
    message: Seq<char>,
    token: Option<String>,
    data: Option<UserResponse>,
) -> bool {
    &&& r.status == status
    &&& r.body matches ReplyBody::Auth(a)
    &&& a.status@ == "success"@
    &&& a.message@ == message
    &&& match token {
        Some(t) => a.token matches Some(v) && v@ == seq![t],
        None => a.token is None,
    }
    &&& a.data == data
}

/// A successful JSON answer of the authentication endpoints.
fn auth_reply(status: u16, message: &str, token: Option<String>, data: Option<UserResponse>) -> (r:
    Reply)
    ensures
        is_auth_reply(r, status, message@, token, data),
{
    let tokens = match token {
        Some(t) => {
            let mut v: Vec<String> = Vec::new();
            v.push(t);
            Some(v)
        },
        None => None,
    };
    let body = AuthJsonResponse {
        status: String::from_str("success"),
        message: String::from_str(message),
        token: tokens,
        data,
    };
    Reply { status, body: ReplyBody::Auth(body) }
}

// ---------------------------------------------------------------- login

/// What the login flow asks for next.
#[derive(Debug)]
pub enum LoginAction {
    /// Look up the account with this user name.
    FindUser { username: String },
    /// Check the password against the stored hash (`check_password`), in the background.
    VerifyPassword { password: String, hash: String },
    /// Sign an access token for the user.
    IssueToken { user_id: u128 },
    /// Set the cookie, then mark the account active and return it.
    ActivateUser { user_id: u128, cookie: CookieSpec },
    /// Answer the request.
    Finish(Result<Reply, AppError>),
}

/// What was reported about the last action of the login flow.
pub enum LoginEvent {
    UserFound(Result<User, DbError>),
    PasswordChecked(PasswordCheck),
    TokenIssued(Result<String, AppError>),
    UserActivated(Result<User, DbError>),
}

/// Where a login stands.
#[derive(Clone, Debug)]
pub enum LoginFlow {
    AwaitingUser { password: String, is_production: bool },
    AwaitingCheck { user_id: u128, password: String, hash: String, is_production: bool },
    AwaitingToken { user_id: u128, is_production: bool },
    AwaitingActivation { token: String },
    Finished,
}

/// A login starts by looking up the lower-cased user name.
pub open spec fn login_started(
    req: LoginUserRequest,
    is_production: bool,
    flow: LoginFlow,
    action: LoginAction,
) -> bool {
    &&& flow == LoginFlow::AwaitingUser { password: req.password, is_production }
    &&& action matches LoginAction::FindUser { username } && username@ == lowercase_of(
        req.username@,
    )
}

/// How a password check moves a flow awaiting the check of `password`
/// against `hash` on: a dead background task, or a report about other
/// values, is an internal server error; a match leads to `matched` (and bcrypt
/// indeed accepted the password); a mismatch or a refused hash is invalid
/// credentials.
pub open spec fn check_moves<F, A>(
    check: PasswordCheck,
    password: Seq<char>,
    hash: Seq<char>,
    matched: (F, A),
    internal_error: (F, A),
    invalid_credentials: (F, A),
    result: (F, A),
) -> bool {
    if check.reported() is TaskFailed || !(check.password() == password && check.hash() == hash) {
        result == internal_error
    } else if check.reported() == CheckOutcome::Verified(true) {
        &&& result == matched
        &&& bcrypt_verdict(password, hash) == Some(true)
    } else {
        result == invalid_credentials
    }
}

/// One step of a login: from `flow`, the report `event` leads to `next`
/// with `action`. An unknown user name, a hash bcrypt refuses and a wrong
/// password are all answered as invalid credentials; a report that does not
/// belong to the step is an internal server error.
pub open spec fn login_transition(
    flow: LoginFlow,
    event: LoginEvent,
    next: LoginFlow,
    action: LoginAction,
) -> bool {
    match (flow, event) {
        (LoginFlow::AwaitingUser { .. }, LoginEvent::UserFound(Err(_))) => {
            &&& next == LoginFlow::Finished
            &&& action == LoginAction::Finish(Err(AppError::InvalidCredentials))
        },
        (
            LoginFlow::AwaitingUser { password, is_production },
            LoginEvent::UserFound(Ok(user)),
        ) => {
            &&& next == LoginFlow::AwaitingCheck {
                user_id: user.id,
                password,
                hash: user.password,
                is_production,
            }
            &&& action == LoginAction::VerifyPassword { password, hash: user.password }
        },
        (
            LoginFlow::AwaitingCheck { user_id, password, hash, is_production },
            LoginEvent::PasswordChecked(check),
        ) => check_moves(
            check,
            password@,
            hash@,
            (
                LoginFlow::AwaitingToken { user_id, is_production },
                LoginAction::IssueToken { user_id },
            ),
            (LoginFlow::Finished, LoginAction::Finish(Err(AppError::InternalServerError))),
            (LoginFlow::Finished, LoginAction::Finish(Err(AppError::InvalidCredentials))),
            (next, action),
        ),
        (
            LoginFlow::AwaitingToken { user_id, is_production },
            LoginEvent::TokenIssued(Ok(token)),
        ) => {
            &&& next == LoginFlow::AwaitingActivation { token }
            &&& action matches LoginAction::ActivateUser { user_id: id, cookie }
            &&& id == user_id
            &&& is_token_cookie(cookie, token@, is_production)
        },
        (LoginFlow::AwaitingToken { .. }, LoginEvent::TokenIssued(Err(e))) => {
            &&& next == LoginFlow::Finished
            &&& action == LoginAction::Finish(Err(e))
        },
        (LoginFlow::AwaitingActivation { token }, LoginEvent::UserActivated(Ok(user))) => {
            &&& next == LoginFlow::Finished
            &&& action matches LoginAction::Finish(Ok(r))
            &&& is_auth_reply(r, OK, "Login Successfull!!"@, Some(token), Some(public_part(user)))
        },
        (LoginFlow::AwaitingActivation { .. }, LoginEvent::UserActivated(Err(e))) => {
            &&& next == LoginFlow::Finished
            &&& action == LoginAction::Finish(Err(AppError::Database(e)))
        },
        _ => {
            &&& next == LoginFlow::Finished
            &&& action == LoginAction::Finish(Err(AppError::InternalServerError))
        },
    }
}

/// `action` looks up the account named `username`.
pub open spec fn looks_up(action: LoginAction, username: Seq<char>) -> bool {
    action matches LoginAction::FindUser { username: u } && u@ == username
}

/// Starts a login with a validated request; `is_production` decides whether
/// the token cookie is marked secure.
pub fn login(req: LoginUserRequest, is_production: bool) -> (r: (LoginFlow, LoginAction))
    ensures
        login_started(req, is_production, r.0, r.1),
        all_ascii(req.username@) ==> looks_up(r.1, ascii_lowercase(req.username@)),
{
    let username = to_lowercase(req.username.as_str());
    (
        LoginFlow::AwaitingUser { password: req.password, is_production },
        LoginAction::FindUser { username },
    )
}

/// Two user names with the same lower-case form start the same lookup.
pub proof fn login_ignores_case(
    a: LoginUserRequest,
    b: LoginUserRequest,
    is_production: bool,
    flow_a: LoginFlow,
    action_a: LoginAction,
    flow_b: LoginFlow,
    action_b: LoginAction,
)
    requires
        lowercase_of(a.username@) == lowercase_of(b.username@),
        a.password == b.password,
        login_started(a, is_production, flow_a, action_a),
        login_started(b, is_production, flow_b, action_b),
    ensures
        flow_a == flow_b,
        action_a matches LoginAction::FindUser { username: ua } && action_b matches LoginAction::FindUser {
            username: ub,
        } && ua@ == ub@,
{
}

impl LoginFlow {
    /// Takes the report of the last action and names the next one.
    pub fn step(self, event: LoginEvent) -> (r: (LoginFlow, LoginAction))
        ensures
            login_transition(self, event, r.0, r.1),
    {
        match (self, event) {
            (LoginFlow::AwaitingUser { .. }, LoginEvent::UserFound(Err(_))) => (
                LoginFlow::Finished,
                LoginAction::Finish(Err(AppError::InvalidCredentials)),
            ),
            (
                LoginFlow::AwaitingUser { password, is_production },
                LoginEvent::UserFound(Ok(user)),
            ) => (
                LoginFlow::AwaitingCheck {
                    user_id: user.id,
                    password: password.clone(),
                    hash: user.password.clone(),
                    is_production,
                },
                LoginAction::VerifyPassword { password, hash: user.password },
            ),
            (
                LoginFlow::AwaitingCheck { user_id, password, hash, is_production },
                LoginEvent::PasswordChecked(check),
            ) => {
                let outcome = check.outcome();
                if outcome == CheckOutcome::TaskFailed || !check.is_for(&password, &hash) {
                    (LoginFlow::Finished, LoginAction::Finish(Err(AppError::InternalServerError)))
                } else if outcome == CheckOutcome::Verified(true) {
                    (
                        LoginFlow::AwaitingToken { user_id, is_production },
                        LoginAction::IssueToken { user_id },
                    )
                } else {
                    (LoginFlow::Finished, LoginAction::Finish(Err(AppError::InvalidCredentials)))
                }
            },
            (
                LoginFlow::AwaitingToken { user_id, is_production },
                LoginEvent::TokenIssued(Ok(token)),
            ) => {
                let cookie = save_to_cookie(token.clone(), is_production);
                (
                    LoginFlow::AwaitingActivation { token },
                    LoginAction::ActivateUser { user_id, cookie },
                )
            },
            (LoginFlow::AwaitingToken { .. }, LoginEvent::TokenIssued(Err(e))) => (
                LoginFlow::Finished,
                LoginAction::Finish(Err(e)),
            ),
            (LoginFlow::AwaitingActivation { token }, LoginEvent::UserActivated(Ok(user))) => {
                let reply = auth_reply(
                    OK,
                    "Login Successfull!!",
                    Some(token),
                    Some(UserResponse::from(user)),
                );
                (LoginFlow::Finished, LoginAction::Finish(Ok(reply)))
            },
            (LoginFlow::AwaitingActivation { .. }, LoginEvent::UserActivated(Err(e))) => (
                LoginFlow::Finished,
                LoginAction::Finish(Err(AppError::Database(e))),
            ),
            _ => (LoginFlow::Finished, LoginAction::Finish(Err(AppError::InternalServerError))),
        }
    }
}

/// Step `i` of a recorded login follows the login transition.
pub open spec fn login_step_taken(
    flows: Seq<LoginFlow>,
    events: Seq<LoginEvent>,
    actions: Seq<LoginAction>,
    i: int,
) -> bool {
    login_transition(flows[i], events[i], flows[i + 1], actions[i + 1])
}

/// `flows` and `actions` are what a login with `req` went through when fed
/// `events`: `flows[i]` and `actions[i]` are the state and the action after
/// `i` reports.
pub open spec fn is_login_run(
    req: LoginUserRequest,
    is_production: bool,
    events: Seq<LoginEvent>,
    flows: Seq<LoginFlow>,
    actions: Seq<LoginAction>,
) -> bool {
    &&& flows.len() == events.len() + 1
    &&& actions.len() == events.len() + 1
    &&& login_started(req, is_production, flows[0], actions[0])
    &&& forall|i: int| 0 <= i < events.len() ==> #[trigger] login_step_taken(flows, events, actions, i)
}

/// `event` reported an account whose stored hash is `hash`.
pub open spec fn found_with_hash(event: LoginEvent, hash: Seq<char>) -> bool {
    event matches LoginEvent::UserFound(Ok(user)) && user.password@ == hash
}

/// `event` reported an account against whose stored hash bcrypt accepts
/// `password`.
pub open spec fn found_matching(event: LoginEvent, password: Seq<char>) -> bool {
    event matches LoginEvent::UserFound(Ok(user)) && bcrypt_verdict(password, user.password@)
        == Some(true)
}

proof fn lemma_login_history(
    req: LoginUserRequest,
    is_production: bool,
    events: Seq<LoginEvent>,
    flows: Seq<LoginFlow>,
    actions: Seq<LoginAction>,
    k: int,
)
    requires
        is_login_run(req, is_production, events, flows, actions),
        0 <= k <= events.len(),
    ensures
        flows[k] matches LoginFlow::AwaitingUser { password, .. } ==> password == req.password,
        flows[k] matches LoginFlow::AwaitingCheck { password, hash, .. } ==> password
            == req.password && exists|j: int|
            0 <= j < k && #[trigger] found_with_hash(events[j], hash@),
        flows[k] is AwaitingToken || flows[k] is AwaitingActivation ==> exists|j: int|
            0 <= j < k && #[trigger] found_matching(events[j], req.password@),
    decreases k,
{
    if k > 0 {
        lemma_login_history(req, is_production, events, flows, actions, k - 1);
        assert(login_step_taken(flows, events, actions, k - 1));
        if let LoginFlow::AwaitingCheck { hash, .. } = flows[k] {
            assert(found_with_hash(events[k - 1], hash@));
        }
        if flows[k] is AwaitingToken {
            if let LoginFlow::AwaitingCheck { password, hash, .. } = flows[k - 1] {
                let j = choose|j: int| 0 <= j < k - 1 && #[trigger] found_with_hash(events[j], hash@);
                assert(found_matching(events[j], req.password@));
            }
        }
    }
}

/// A login succeeds only if the database reported an account against whose
/// stored hash bcrypt accepts the submitted password.
pub proof fn login_success_needs_matching_password(
    req: LoginUserRequest,
    is_production: bool,
    events: Seq<LoginEvent>,
    flows: Seq<LoginFlow>,
    actions: Seq<LoginAction>,
)
    requires
        is_login_run(req, is_production, events, flows, actions),
        actions.last() matches LoginAction::Finish(Ok(_)),
    ensures
        exists|j: int| 0 <= j < events.len() && #[trigger] found_matching(events[j], req.password@),
{
    let n = events.len() as int;
    if n == 0 {
        assert(actions[0] is FindUser);
    } else {
        assert(login_step_taken(flows, events, actions, n - 1));
        lemma_login_history(req, is_production, events, flows, actions, n - 1);
    }
}

/// A login answers an unknown user name exactly as it answers a wrong
/// password: invalid credentials.
pub proof fn login_hides_unknown_users(
    password: String,
    hash: String,
    is_production: bool,
    user_id: u128,
    lookup_error: DbError,
    check: PasswordCheck,
    after_lookup: LoginFlow,
    lookup_action: LoginAction,
    after_check: LoginFlow,
    check_action: LoginAction,
)
    requires
        check.password() == password@,
        check.hash() == hash@,
        check.reported() == CheckOutcome::Verified(false),
        login_transition(
            LoginFlow::AwaitingUser { password, is_production },
            LoginEvent::UserFound(Err(lookup_error)),
            after_lookup,
            lookup_action,
        ),
        login_transition(
            LoginFlow::AwaitingCheck { user_id, password, hash, is_production },
            LoginEvent::PasswordChecked(check),
            after_check,
            check_action,
        ),
    ensures
        lookup_action == check_action,
        lookup_action == LoginAction::Finish(Err(AppError::InvalidCredentials)),
{
}

// ---------------------------------------------------------------- registration

/// What the registration flow asks for next.
#[derive(Debug)]
pub enum RegisterAction {
    /// Run the uniqueness query with `value` bound and report whether a row exists.
    QueryExists { sql: String, value: String },
    /// Hash the password (`hash_password`), in the background.
    HashPassword { password: String },
    /// Store a new account (see `User::new`) with these fields and return it.
    InsertUser { full_name: String, username: String, email: String, password_hash: String },
    /// Sign an access token for the user.
    IssueToken { user_id: u128 },
    /// Apply the cookie effect and answer the request.
    Finish(CookieEffect, Result<Reply, AppError>),
}

/// What was reported about the last action of the registration flow.
pub enum RegisterEvent {
    ExistsChecked(Result<bool, DbError>),
    PasswordHashed(PasswordHash),
    UserInserted(Result<User, DbError>),
    TokenIssued(Result<String, AppError>),
}

/// Where a registration stands. The user name and e-mail address held are
/// already lower-cased.
pub enum RegisterFlow {
    CheckingConflicts {
        scan: ConflictScan,
        full_name: String,
        username: String,
        email: String,
        password: String,
        is_production: bool,
    },
    AwaitingHash {
        full_name: String,
        username: String,
        email: String,
        password: String,
        is_production: bool,
    },
    AwaitingInsert { is_production: bool },
    AwaitingToken { user: User, is_production: bool },
    Finished,
}

impl RegisterFlow {
    /// A flow checking conflicts still has a column to ask about.
    pub open spec fn wf(&self) -> bool {
        self matches RegisterFlow::CheckingConflicts { scan, .. } ==> scan.pending()
    }
}

/// How the registration moves on once the uniqueness scan over `fields` of
/// `table` has the answers `answers`: ask about the next column, hash the
/// password when no value is taken, or answer with the taken columns.
pub open spec fn register_scan_moves(
    table: Seq<char>,
    fields: Seq<(String, String)>,
    answers: Seq<bool>,
    full_name: String,
    username: String,
    email: String,
    password: String,
    is_production: bool,
    next: RegisterFlow,
    action: RegisterAction,
) -> bool {
    if answers.len() < fields.len() {
        let (column, value) = fields[answers.len() as int];
        &&& next matches RegisterFlow::CheckingConflicts {
            scan,
            full_name: f,
            username: u,
            email: m,
            password: p,
            is_production: prod,
        }
        &&& scan.table() == table
        &&& scan.fields() == fields
        &&& scan.answers() == answers
        &&& f == full_name
        &&& u == username
        &&& m == email
        &&& p == password
        &&& prod == is_production
        &&& action matches RegisterAction::QueryExists { sql, value: v }
        &&& sql@ == exists_query(table, column@)
        &&& v == value
    } else if taken_columns(fields, answers).len() == 0 {
        &&& next == RegisterFlow::AwaitingHash {
            full_name,
            username,
            email,
            password,
            is_production,
        }
        &&& action == RegisterAction::HashPassword { password }
    } else {
        &&& next == RegisterFlow::Finished
        &&& action matches RegisterAction::Finish(CookieEffect::Unchanged, Err(AppError::Conflict(c)))
        &&& c@ == taken_columns(fields, answers)
    }
}

/// Moves the registration on after a step of the uniqueness scan.
fn continue_registration(
    step: ScanStep,
    full_name: String,
    username: String,
    email: String,
    password: String,
    is_production: bool,
    Ghost(table): Ghost<Seq<char>>,
    Ghost(fields): Ghost<Seq<(String, String)>>,
    Ghost(answers): Ghost<Seq<bool>>,
) -> (r: (RegisterFlow, RegisterAction))
    requires
        crate::services::conflict::is_scan_step(table, fields, answers, step),
    ensures
        register_scan_moves(
            table,
            fields,
            answers,
            full_name,
            username,
            email,
            password,
            is_production,
            r.0,
            r.1,
        ),
        r.0.wf(),
{
    match step {
        ScanStep::Query { scan, sql, value } => (
            RegisterFlow::CheckingConflicts {
                scan,
                full_name,
                username,
                email,
                password,
                is_production,
            },
            RegisterAction::QueryExists { sql, value },
        ),
        ScanStep::Done(Ok(())) => (
            RegisterFlow::AwaitingHash {
                full_name,
                username,
                email,
                password: password.clone(),
                is_production,
            },
            RegisterAction::HashPassword { password },
        ),
        ScanStep::Done(Err(e)) => (
            RegisterFlow::Finished,
            RegisterAction::Finish(CookieEffect::Unchanged, Err(e)),
        ),
    }
}

/// The fields a registration checks for uniqueness in `users`: the
/// lower-cased user name, then the e-mail address as given.
pub open spec fn registration_checks(req: CreateUserRequest, fields: Seq<(String, String)>) -> bool {
    &&& fields.len() == 2
    &&& fields[0].0@ == "username"@
    &&& fields[0].1@ == lowercase_of(req.username@)
    &&& fields[1].0@ == "email"@
    &&& fields[1].1 == req.email
}

/// A registration starts by checking that the lower-cased user name is free;
/// it keeps the full name, the lower-cased user name and e-mail address and
/// the password for later.
pub open spec fn register_started(
    req: CreateUserRequest,
    is_production: bool,
    flow: RegisterFlow,
    action: RegisterAction,
) -> bool {
    &&& flow matches RegisterFlow::CheckingConflicts {
        scan,
        full_name,
        username,
        email,
        password,
        is_production: prod,
    }
    &&& scan.table() == "users"@
    &&& registration_checks(req, scan.fields())
    &&& scan.answers() == Seq::<bool>::empty()
    &&& full_name == req.full_name
    &&& username@ == lowercase_of(req.username@)
    &&& email@ == lowercase_of(req.email@)
    &&& password == req.password
    &&& prod == is_production
    &&& action matches RegisterAction::QueryExists { sql, value }
    &&& sql@ == exists_query("users"@, "username"@)
    &&& value@ == lowercase_of(req.username@)
}

/// One step of a registration: from `flow`, the report `event` leads to
/// `next` with `action`. A database failure of the uniqueness scan or of the
/// insertion is answered as that database error; a failed hashing as an
/// internal server error; a report that does not belong to the step as an
/// internal server error.
pub open spec fn register_transition(
    flow: RegisterFlow,
    event: RegisterEvent,
    next: RegisterFlow,
    action: RegisterAction,
) -> bool {
    match (flow, event) {
        (
            RegisterFlow::CheckingConflicts {
                scan,
                full_name,
                username,
                email,
                password,
                is_production,
            },
            RegisterEvent::ExistsChecked(answer),
        ) => match answer {
            Err(e) => {
                &&& next == RegisterFlow::Finished
                &&& action == RegisterAction::Finish(
                    CookieEffect::Unchanged,
                    Err(AppError::Database(e)),
                )
            },
            Ok(taken) => register_scan_moves(
                scan.table(),
                scan.fields(),
                scan.answers().push(taken),
                full_name,
                username,
                email,
                password,
                is_production,
                next,
                action,
            ),
        },
        (
            RegisterFlow::AwaitingHash { full_name, username, email, password, is_production },
            RegisterEvent::PasswordHashed(hashed),
        ) => if hashed.password() == password@ && hashed.reported() is Hashed {
            let password_hash = hashed.reported()->Hashed_0;
            &&& next == RegisterFlow::AwaitingInsert { is_production }
            &&& action == RegisterAction::InsertUser { full_name, username, email, password_hash }
            &&& fresh_hash(password@, password_hash@)
        } else {
            &&& next == RegisterFlow::Finished
            &&& action == RegisterAction::Finish(
                CookieEffect::Unchanged,
                Err(AppError::InternalServerError),
            )
        },
        (RegisterFlow::AwaitingInsert { is_production }, RegisterEvent::UserInserted(inserted)) => {
            match inserted {
                Ok(user) => {
                    &&& next == RegisterFlow::AwaitingToken { user, is_production }
                    &&& action == RegisterAction::IssueToken { user_id: user.id }
                },
                Err(e) => {
                    &&& next == RegisterFlow::Finished
                    &&& action == RegisterAction::Finish(
                        CookieEffect::Unchanged,
                        Err(AppError::Database(e)),
                    )
                },
            }
        },
        (RegisterFlow::AwaitingToken { user, is_production }, RegisterEvent::TokenIssued(issued)) => {
            match issued {
                Ok(token) => {
                    &&& next == RegisterFlow::Finished
                    &&& action matches RegisterAction::Finish(CookieEffect::Store(cookie), Ok(r))
                    &&& is_token_cookie(cookie, token@, is_production)
                    &&& is_auth_reply(
                        r,
                        CREATED,
                        "Resgistration Successfull!!"@,
                        Some(token),
                        Some(public_part(user)),
                    )
                },
                Err(e) => {
                    &&& next == RegisterFlow::Finished
                    &&& action == RegisterAction::Finish(CookieEffect::Unchanged, Err(e))
                },
            }
        },
        _ => {
            &&& next == RegisterFlow::Finished
            &&& action == RegisterAction::Finish(
                CookieEffect::Unchanged,
                Err(AppError::InternalServerError),
            )
        },
    }
}

/// Starts a registration with a validated request; `is_production` decides
/// whether the token cookie is marked secure.
pub fn register(req: CreateUserRequest, is_production: bool) -> (r: (RegisterFlow, RegisterAction))
    ensures
        register_started(req, is_production, r.0, r.1),
        r.0.wf(),
{
    let username = to_lowercase(req.username.as_str());
    let email = to_lowercase(req.email.as_str());
    let mut checks: Vec<(String, String)> = Vec::new();
    checks.push((String::from_str("username"), username.clone()));
    checks.push((String::from_str("email"), req.email.clone()));
    let ghost fields = checks@;
    proof {
        reveal_strlit("username");
        reveal_strlit("email");
        assert(fields[0].0@ == "username"@ && fields[1].0@ == "email"@);
        assert("username"@.len() != "email"@.len());
        assert(fields[0].0@ != fields[1].0@);
    }
    let step = check_conflicts("users", checks);
    continue_registration(
        step,
        req.full_name,
        username,
        email,
        req.password,
        is_production,
        Ghost("users"@),
        Ghost(fields),
        Ghost(Seq::empty()),
    )
}

impl RegisterFlow {
    /// Takes the report of the last action and names the next one.
    pub fn step(self, event: RegisterEvent) -> (r: (RegisterFlow, RegisterAction))
        requires
            self.wf(),
        ensures
            register_transition(self, event, r.0, r.1),
            r.0.wf(),
    {
        match (self, event) {
            (
                RegisterFlow::CheckingConflicts {
                    scan,
                    full_name,
                    username,
                    email,
                    password,
                    is_production,
                },
                RegisterEvent::ExistsChecked(answer),
            ) => match answer {
                Err(e) => (
                    RegisterFlow::Finished,
                    RegisterAction::Finish(CookieEffect::Unchanged, Err(AppError::Database(e))),
                ),
                Ok(taken) => {
                    let ghost table = scan.table();
                    let ghost fields = scan.fields();
                    let ghost answers = scan.answers().push(taken);
                    let step = scan.on_answer(Ok(taken));
                    continue_registration(
                        step,
                        full_name,
                        username,
                        email,
                        password,
                        is_production,
                        Ghost(table),
                        Ghost(fields),
                        Ghost(answers),
                    )
                },
            },
            (
                RegisterFlow::AwaitingHash { full_name, username, email, password, is_production },
                RegisterEvent::PasswordHashed(hashed),
            ) => {
                let for_password = hashed.is_for(&password);
                let result = hashed.into_result();
                match result {
                    HashResult::Hashed(password_hash) if for_password => (
                        RegisterFlow::AwaitingInsert { is_production },
                        RegisterAction::InsertUser { full_name, username, email, password_hash },
                    ),
                    _ => (
                        RegisterFlow::Finished,
                        RegisterAction::Finish(
                            CookieEffect::Unchanged,
                            Err(AppError::InternalServerError),
                        ),
                    ),
                }
            },
            (
                RegisterFlow::AwaitingInsert { is_production },
                RegisterEvent::UserInserted(inserted),
            ) => match inserted {
                Ok(user) => {
                    let user_id = user.id;
                    (
                        RegisterFlow::AwaitingToken { user, is_production },
                        RegisterAction::IssueToken { user_id },
                    )
                },
                Err(e) => (
                    RegisterFlow::Finished,
                    RegisterAction::Finish(CookieEffect::Unchanged, Err(AppError::Database(e))),
                ),
            },
            (
                RegisterFlow::AwaitingToken { user, is_production },
                RegisterEvent::TokenIssued(issued),
            ) => match issued {
                Ok(token) => {
                    let cookie = save_to_cookie(token.clone(), is_production);
                    let reply = auth_reply(
                        CREATED,
                        "Resgistration Successfull!!",
                        Some(token),
                        Some(UserResponse::from(user)),
                    );
                    (
                        RegisterFlow::Finished,
                        RegisterAction::Finish(CookieEffect::Store(cookie), Ok(reply)),
                    )
                },
                Err(e) => (
                    RegisterFlow::Finished,
                    RegisterAction::Finish(CookieEffect::Unchanged, Err(e)),
                ),
            },
            _ => (
                RegisterFlow::Finished,
                RegisterAction::Finish(CookieEffect::Unchanged, Err(AppError::InternalServerError)),
            ),
        }
    }
}

/// Step `i` of a recorded registration follows the registration transition.
pub open spec fn register_step_taken(
    flows: Seq<RegisterFlow>,
    events: Seq<RegisterEvent>,
    actions: Seq<RegisterAction>,
    i: int,
) -> bool {
    register_transition(flows[i], events[i], flows[i + 1], actions[i + 1])
}

/// `flows` and `actions` are what a registration with `req` went through
/// when fed `events`.
pub open spec fn is_register_run(
    req: CreateUserRequest,
    is_production: bool,
    events: Seq<RegisterEvent>,
    flows: Seq<RegisterFlow>,
    actions: Seq<RegisterAction>,
) -> bool {
    &&& flows.len() == events.len() + 1
    &&& actions.len() == events.len() + 1
    &&& register_started(req, is_production, flows[0], actions[0])
    &&& forall|i: int|
        0 <= i < events.len() ==> #[trigger] register_step_taken(flows, events, actions, i)
}

/// `flow` still holds the names of `req`, normalised, and its password.
pub open spec fn holds_normalised_names(req: CreateUserRequest, flow: RegisterFlow) -> bool {
    match flow {
        RegisterFlow::CheckingConflicts { full_name, username, email, password, .. } => {
            &&& full_name == req.full_name
            &&& username@ == lowercase_of(req.username@)
            &&& email@ == lowercase_of(req.email@)
            &&& password == req.password
        },
        RegisterFlow::AwaitingHash { full_name, username, email, password, .. } => {
            &&& full_name == req.full_name
            &&& username@ == lowercase_of(req.username@)
            &&& email@ == lowercase_of(req.email@)
            &&& password == req.password
        },
        _ => true,
    }
}

proof fn lemma_register_keeps_names(
    req: CreateUserRequest,
    is_production: bool,
    events: Seq<RegisterEvent>,
    flows: Seq<RegisterFlow>,
    actions: Seq<RegisterAction>,
    k: int,
)
    requires
        is_register_run(req, is_production, events, flows, actions),
        0 <= k <= events.len(),
    ensures
        holds_normalised_names(req, flows[k]),
    decreases k,
{
    if k > 0 {
        lemma_register_keeps_names(req, is_production, events, flows, actions, k - 1);
        assert(register_step_taken(flows, events, actions, k - 1));
    }
}

/// A registration stores the account under the lower-cased user name and
/// e-mail address, with the full name as given and a hash made at the
/// service's work factor against which bcrypt accepts the submitted password.
pub proof fn register_stores_normalised_account(
    req: CreateUserRequest,
    is_production: bool,
    events: Seq<RegisterEvent>,
    flows: Seq<RegisterFlow>,
    actions: Seq<RegisterAction>,
    k: int,
)
    requires
        is_register_run(req, is_production, events, flows, actions),
        0 <= k < actions.len(),
        actions[k] is InsertUser,
    ensures
        actions[k] matches RegisterAction::InsertUser { full_name, username, email, password_hash }
            && full_name == req.full_name && username@ == lowercase_of(req.username@) && email@
            == lowercase_of(req.email@) && fresh_hash(req.password@, password_hash@),
{
    if k > 0 {
        lemma_register_keeps_names(req, is_production, events, flows, actions, k - 1);
        assert(register_step_taken(flows, events, actions, k - 1));
    }
}

/// A registration hashes the password of the request, as submitted.
pub proof fn register_hashes_submitted_password(
    req: CreateUserRequest,
    is_production: bool,
    events: Seq<RegisterEvent>,
    flows: Seq<RegisterFlow>,
    actions: Seq<RegisterAction>,
    k: int,
)
    requires
        is_register_run(req, is_production, events, flows, actions),
        0 <= k < actions.len(),
        actions[k] is HashPassword,
    ensures
        actions[k] matches RegisterAction::HashPassword { password } && password == req.password,
{
    if k > 0 {
        lemma_register_keeps_names(req, is_production, events, flows, actions, k - 1);
        assert(register_step_taken(flows, events, actions, k - 1));
    }
}

/// `flow`, if it is a uniqueness scan, checks the registration fields of
/// `req` in `users` and still has a column to ask about.
pub open spec fn scans_registration(req: CreateUserRequest, flow: RegisterFlow) -> bool {
    flow matches RegisterFlow::CheckingConflicts { scan, .. } ==> {
        &&& scan.table() == "users"@
        &&& registration_checks(req, scan.fields())
        &&& scan.pending()
    }
}

/// At `flow`, the report `event` answered the last uniqueness query of the
/// registration of `req`, and every answer was that the value is free.
pub open spec fn scan_came_back_free(
    req: CreateUserRequest,
    flow: RegisterFlow,
    event: RegisterEvent,
) -> bool {
    &&& flow matches RegisterFlow::CheckingConflicts { scan, .. }
    &&& scan.table() == "users"@
    &&& registration_checks(req, scan.fields())
    &&& event matches RegisterEvent::ExistsChecked(Ok(taken))
    &&& scan.answers().push(taken).len() == scan.fields().len()
    &&& forall|i: int|
        0 <= i < scan.fields().len() ==> !#[trigger] scan.answers().push(taken)[i]
}

proof fn lemma_register_scan_history(
    req: CreateUserRequest,
    is_production: bool,
    events: Seq<RegisterEvent>,
    flows: Seq<RegisterFlow>,
    actions: Seq<RegisterAction>,
    k: int,
)
    requires
        is_register_run(req, is_production, events, flows, actions),
        0 <= k <= events.len(),
    ensures
        scans_registration(req, flows[k]),
        flows[k] is AwaitingHash ==> exists|j: int|
            0 <= j < k && #[trigger] scan_came_back_free(req, flows[j], events[j]),
    decreases k,
{
    if k > 0 {
        lemma_register_scan_history(req, is_production, events, flows, actions, k - 1);
        assert(register_step_taken(flows, events, actions, k - 1));
        if flows[k] is AwaitingHash {
            if let RegisterFlow::CheckingConflicts { scan, .. } = flows[k - 1] {
                if let RegisterEvent::ExistsChecked(Ok(taken)) = events[k - 1] {
                    crate::services::conflict::lemma_none_taken(
                        scan.fields(),
                        scan.answers().push(taken),
                    );
                    assert(scan_came_back_free(req, flows[k - 1], events[k - 1]));
                }
            }
        }
    }
}

/// A registration stores an account only after the database answered, for
/// the lower-cased user name and for the e-mail address alike, that no
/// account holds it.
pub proof fn register_inserts_only_free_names(
    req: CreateUserRequest,
    is_production: bool,
    events: Seq<RegisterEvent>,
    flows: Seq<RegisterFlow>,
    actions: Seq<RegisterAction>,
    k: int,
)
    requires
        is_register_run(req, is_production, events, flows, actions),
        0 <= k < actions.len(),
        actions[k] is InsertUser,
    ensures
        exists|j: int| 0 <= j < k && #[trigger] scan_came_back_free(req, flows[j], events[j]),
{
    if k == 0 {
        assert(actions[0] is QueryExists);
    } else {
        assert(register_step_taken(flows, events, actions, k - 1));
        lemma_register_scan_history(req, is_production, events, flows, actions, k - 1);
    }
}

/// The value an account holds in a column of `users` that the uniqueness
/// scan asks about: its user name or its e-mail address.
pub open spec fn column_value(account: User, column: Seq<char>) -> Option<Seq<char>> {
    if column == "username"@ {
        Some(account.username@)
    } else if column == "email"@ {
        Some(account.email@)
    } else {
        None
    }
}

/// Some account of `accounts` holds `value` in `column`: what the query
/// `exists_query("users", column)` with `value` bound asks.
pub open spec fn table_holds(accounts: Seq<User>, column: Seq<char>, value: Seq<char>) -> bool {
    exists|i: int| 0 <= i < accounts.len() && #[trigger] column_value(accounts[i], column) == Some(value)
}

/// No two accounts share a user name or an e-mail address.
pub open spec fn unique_accounts(accounts: Seq<User>) -> bool {
    forall|i: int, j: int|
        0 <= i < j < accounts.len() ==> (#[trigger] accounts[i]).username@ != (#[trigger] accounts[j]).username@
            && accounts[i].email@ != accounts[j].email@
}

/// Every answer the database gave to a uniqueness query of the registration
/// is the truth about the accounts `accounts`.
pub open spec fn answers_describe(
    accounts: Seq<User>,
    flows: Seq<RegisterFlow>,
    events: Seq<RegisterEvent>,
) -> bool {
    forall|j: int|
        0 <= j < events.len() ==> #[trigger] answer_describes(accounts, flows[j], events[j])
}

/// If `event` answers the query of the scan at `flow`, it is the truth about
/// `accounts`.
pub open spec fn answer_describes(accounts: Seq<User>, flow: RegisterFlow, event: RegisterEvent) -> bool {
    flow matches RegisterFlow::CheckingConflicts { scan, .. } ==> (event matches RegisterEvent::ExistsChecked(
        Ok(taken),
    ) ==> (scan.answers().len() < scan.fields().len() ==> taken == table_holds(
        accounts,
        scan.fields()[scan.answers().len() as int].0@,
        scan.fields()[scan.answers().len() as int].1@,
    )))
}

proof fn lemma_register_answers_true(
    req: CreateUserRequest,
    is_production: bool,
    events: Seq<RegisterEvent>,
    flows: Seq<RegisterFlow>,
    actions: Seq<RegisterAction>,
    accounts: Seq<User>,
    k: int,
)
    requires
        is_register_run(req, is_production, events, flows, actions),
        answers_describe(accounts, flows, events),
        0 <= k <= events.len(),
    ensures
        flows[k] matches RegisterFlow::CheckingConflicts { scan, .. } ==> forall|i: int|
            0 <= i < scan.answers().len() ==> #[trigger] scan.answers()[i] == table_holds(
                accounts,
                scan.fields()[i].0@,
                scan.fields()[i].1@,
            ),
    decreases k,
{
    if k > 0 {
        lemma_register_answers_true(req, is_production, events, flows, actions, accounts, k - 1);
        assert(register_step_taken(flows, events, actions, k - 1));
        assert(answer_describes(accounts, flows[k - 1], events[k - 1]));
    }
}

/// A registration keeps user names and e-mail addresses unique among the
/// accounts, for a request whose e-mail address is already lower-case: if no
/// two accounts share either, the database answered the uniqueness queries
/// truthfully about those accounts and nothing else wrote meanwhile, then the
/// account the registration stores (under the inserted names) shares neither
/// with any of them. (The scan checks the e-mail address as given but stores
/// it lower-cased, so for an address with capitals the law fails.)
pub proof fn register_keeps_accounts_unique(
    req: CreateUserRequest,
    is_production: bool,
    events: Seq<RegisterEvent>,
    flows: Seq<RegisterFlow>,
    actions: Seq<RegisterAction>,
    k: int,
    accounts: Seq<User>,
    stored: User,
)
    requires
        is_register_run(req, is_production, events, flows, actions),
        0 <= k < actions.len(),
        actions[k] matches RegisterAction::InsertUser { username, email, .. } && stored.username
            == username && stored.email == email,
        lowercase_of(req.email@) == req.email@,
        unique_accounts(accounts),
        answers_describe(accounts, flows, events),
    ensures
        unique_accounts(accounts.push(stored)),
{
    register_inserts_only_free_names(req, is_production, events, flows, actions, k);
    register_stores_normalised_account(req, is_production, events, flows, actions, k);
    let j = choose|j: int| 0 <= j < k && #[trigger] scan_came_back_free(req, flows[j], events[j]);
    lemma_register_answers_true(req, is_production, events, flows, actions, accounts, j);
    assert(answer_describes(accounts, flows[j], events[j]));
    if let RegisterFlow::CheckingConflicts { scan, .. } = flows[j] {
        if let RegisterEvent::ExistsChecked(Ok(taken)) = events[j] {
            reveal_strlit("username");
            reveal_strlit("email");
            assert("username"@ != "email"@) by {
                assert("username"@.len() != "email"@.len());
            }
            let all = scan.answers().push(taken);
            assert(!all[0] && !all[1]);
            assert(all[0] == scan.answers()[0]);
            assert(!table_holds(accounts, "username"@, lowercase_of(req.username@)));
            assert(!table_holds(accounts, "email"@, req.email@));
            let grown = accounts.push(stored);
            assert forall|a: int, b: int| 0 <= a < b < grown.len() implies (#[trigger] grown[a]).username@
                != (#[trigger] grown[b]).username@ && grown[a].email@ != grown[b].email@ by {
                if b == accounts.len() {
                    assert(grown[a] == accounts[a]);
                    if grown[a].username@ == grown[b].username@ {
                        assert(column_value(accounts[a], "username"@) == Some(
                            lowercase_of(req.username@),
                        ));
                    }
                    if grown[a].email@ == grown[b].email@ {
                        assert(column_value(accounts[a], "email"@) == Some(req.email@));
                    }
                }
            }
        }
    }
}

// ---------------------------------------------------------------- logout

/// What the logout flow asks for next.
#[derive(Debug)]
pub enum LogoutAction {
    /// Mark the account inactive.
    DeactivateUser { user_id: u128 },
    /// Apply the cookie effect and answer the request.
    Finish(CookieEffect, Result<Reply, AppError>),
}

/// Where a logout stands.
#[derive(Clone, Copy, Debug)]
pub enum LogoutFlow {
    AwaitingDeactivation,
    Finished,
}

/// One step of a logout: once the account is marked inactive, the token
/// cookie is removed and the logout confirmed; a database failure is
/// answered as that error, and a report after the end as an internal server
/// error.
pub open spec fn logout_transition(
    flow: LogoutFlow,
    deactivated: Result<User, DbError>,
    next: LogoutFlow,
    action: LogoutAction,
) -> bool {
    &&& next == LogoutFlow::Finished
    &&& match (flow, deactivated) {
        (LogoutFlow::AwaitingDeactivation, Ok(_)) => {
            &&& action matches LogoutAction::Finish(CookieEffect::Remove(removal), Ok(r))
            &&& is_token_removal(removal)
            &&& is_auth_reply(r, OK, "Logout Successfull!!"@, None, None)
        },
        (LogoutFlow::AwaitingDeactivation, Err(e)) => action == LogoutAction::Finish(
            CookieEffect::Unchanged,
            Err(AppError::Database(e)),
        ),
        _ => action == LogoutAction::Finish(
            CookieEffect::Unchanged,
            Err(AppError::InternalServerError),
        ),
    }
}

/// Starts the logout of the authenticated user. The user's identifier goes
/// through its text form and back, which always gives it back, so the
/// logout never fails with an invalid identifier.
pub fn logout(auth_user: &User) -> (r: (LogoutFlow, LogoutAction))
    ensures
        r.0 == LogoutFlow::AwaitingDeactivation,
        r.1 == (LogoutAction::DeactivateUser { user_id: auth_user.id }),
{
    let text = uuid_to_string(auth_user.id);
    match parse_uuid(text.as_str()) {
        Some(user_id) => (LogoutFlow::AwaitingDeactivation, LogoutAction::DeactivateUser { user_id }),
        None => (
            LogoutFlow::Finished,
            LogoutAction::Finish(CookieEffect::Unchanged, Err(AppError::InvalidId)),
        ),
    }
}

impl LogoutFlow {
    /// Takes the result of marking the account inactive and answers.
    pub fn step(self, deactivated: Result<User, DbError>) -> (r: (LogoutFlow, LogoutAction))
        ensures
            logout_transition(self, deactivated, r.0, r.1),
    {
        match (self, deactivated) {
            (LogoutFlow::AwaitingDeactivation, Ok(_)) => {
                let reply = auth_reply(OK, "Logout Successfull!!", None, None);
                (
                    LogoutFlow::Finished,
                    LogoutAction::Finish(CookieEffect::Remove(token_removal()), Ok(reply)),
                )
            },
            (LogoutFlow::AwaitingDeactivation, Err(e)) => (
                LogoutFlow::Finished,
                LogoutAction::Finish(CookieEffect::Unchanged, Err(AppError::Database(e))),
            ),
            _ => (
                LogoutFlow::Finished,
                LogoutAction::Finish(CookieEffect::Unchanged, Err(AppError::InternalServerError)),
            ),
        }
    }
}

// ---------------------------------------------------------------- password change

/// What the password-change flow asks for next.
#[derive(Debug)]
pub enum PasswordChangeAction {
    /// Look up the account with this user name.
    FindUser { username: String },
    /// Check the password against the stored hash (`check_password`), in the background.
    VerifyPassword { password: String, hash: String },
    /// Hash the new password (`hash_password`), in the background.
    HashPassword { password: String },
    /// Store the new hash for the account.
    UpdatePassword { user_id: u128, password_hash: String },
    /// Answer the request.
    Finish(Result<Reply, AppError>),
}

/// What was reported about the last action of the password-change flow.
pub enum PasswordChangeEvent {
    UserFound(Result<User, DbError>),
    PasswordChecked(PasswordCheck),
    PasswordHashed(PasswordHash),
    PasswordUpdated(Result<User, DbError>),
}

/// Where a password change stands.
#[derive(Clone, Debug)]
pub enum PasswordChangeFlow {
    AwaitingUser { old_password: String, new_password: String },
    AwaitingCheck { user_id: u128, old_password: String, hash: String, new_password: String },
    AwaitingHash { user_id: u128, new_password: String },
    AwaitingUpdate,
    Finished,
}

/// A password change starts by looking up the authenticated user's name as
/// stored.
pub open spec fn password_change_started(
    auth_user: User,
    req: ChangePasswordRequest,
    flow: PasswordChangeFlow,
    action: PasswordChangeAction,
) -> bool {
    &&& flow == PasswordChangeFlow::AwaitingUser {
        old_password: req.old_password,
        new_password: req.new_password,
    }
    &&& action == PasswordChangeAction::FindUser { username: auth_user.username }
}

/// One step of a password change: from `flow`, the report `event` leads to
/// `next` with `action`. A missing account is unauthorized; a wrong old
/// password or a hash bcrypt refuses is answered as invalid credentials; a
/// failed hashing, a dead background task or a report about other values as
/// an internal server error.
pub open spec fn password_change_transition(
    flow: PasswordChangeFlow,
    event: PasswordChangeEvent,
    next: PasswordChangeFlow,
    action: PasswordChangeAction,
) -> bool {
    match (flow, event) {
        (
            PasswordChangeFlow::AwaitingUser { old_password, new_password },
            PasswordChangeEvent::UserFound(found),
        ) => match found {
            Ok(user) => {
                &&& next == PasswordChangeFlow::AwaitingCheck {
                    user_id: user.id,
                    old_password,
                    hash: user.password,
                    new_password,
                }
                &&& action == PasswordChangeAction::VerifyPassword {
                    password: old_password,
                    hash: user.password,
                }
            },
            Err(_) => {
                &&& next == PasswordChangeFlow::Finished
                &&& action == PasswordChangeAction::Finish(Err(AppError::Unauthorized))
            },
        },
        (
            PasswordChangeFlow::AwaitingCheck { user_id, old_password, hash, new_password },
            PasswordChangeEvent::PasswordChecked(check),
        ) => check_moves(
            check,
            old_password@,
            hash@,
            (
                PasswordChangeFlow::AwaitingHash { user_id, new_password },
                PasswordChangeAction::HashPassword { password: new_password },
            ),
            (
                PasswordChangeFlow::Finished,
                PasswordChangeAction::Finish(Err(AppError::InternalServerError)),
            ),
            (
                PasswordChangeFlow::Finished,
                PasswordChangeAction::Finish(Err(AppError::InvalidCredentials)),
            ),
            (next, action),
        ),
        (
            PasswordChangeFlow::AwaitingHash { user_id, new_password },
            PasswordChangeEvent::PasswordHashed(hashed),
        ) => if hashed.password() == new_password@ && hashed.reported() is Hashed {
            let password_hash = hashed.reported()->Hashed_0;
            &&& next == PasswordChangeFlow::AwaitingUpdate
            &&& action == PasswordChangeAction::UpdatePassword { user_id, password_hash }
            &&& fresh_hash(new_password@, password_hash@)
        } else {
            &&& next == PasswordChangeFlow::Finished
            &&& action == PasswordChangeAction::Finish(Err(AppError::InternalServerError))
        },
        (PasswordChangeFlow::AwaitingUpdate, PasswordChangeEvent::PasswordUpdated(updated)) => {
            &&& next == PasswordChangeFlow::Finished
            &&& match updated {
                Ok(_) => action matches PasswordChangeAction::Finish(Ok(r)) && is_auth_reply(
                    r,
                    OK,
                    "Password changed successfully!"@,
                    None,
                    None,
                ),
                Err(e) => action == PasswordChangeAction::Finish(Err(AppError::Database(e))),
            }
        },
        _ => {
            &&& next == PasswordChangeFlow::Finished
            &&& action == PasswordChangeAction::Finish(Err(AppError::InternalServerError))
        },
    }
}

/// Starts a password change for the authenticated user with a validated
/// request.
pub fn change_password(auth_user: &User, req: ChangePasswordRequest) -> (r: (
    PasswordChangeFlow,
    PasswordChangeAction,
))
    ensures
        password_change_started(*auth_user, req, r.0, r.1),
{
    (
        PasswordChangeFlow::AwaitingUser {
            old_password: req.old_password,
            new_password: req.new_password,
        },
        PasswordChangeAction::FindUser { username: auth_user.username.clone() },
    )
}

impl PasswordChangeFlow {
    /// Takes the report of the last action and names the next one.
    pub fn step(self, event: PasswordChangeEvent) -> (r: (PasswordChangeFlow, PasswordChangeAction))
        ensures
            password_change_transition(self, event, r.0, r.1),
    {
        match (self, event) {
            (
                PasswordChangeFlow::AwaitingUser { old_password, new_password },
                PasswordChangeEvent::UserFound(found),
            ) => match found {
                Ok(user) => (
                    PasswordChangeFlow::AwaitingCheck {
                        user_id: user.id,
                        old_password: old_password.clone(),
                        hash: user.password.clone(),
                        new_password,
                    },
                    PasswordChangeAction::VerifyPassword {
                        password: old_password,
                        hash: user.password,
                    },
                ),
                Err(_) => (
                    PasswordChangeFlow::Finished,
                    PasswordChangeAction::Finish(Err(AppError::Unauthorized)),
                ),
            },
            (
                PasswordChangeFlow::AwaitingCheck { user_id, old_password, hash, new_password },
                PasswordChangeEvent::PasswordChecked(check),
            ) => {
                let outcome = check.outcome();
                if outcome == CheckOutcome::TaskFailed || !check.is_for(&old_password, &hash) {
                    (
                        PasswordChangeFlow::Finished,
                        PasswordChangeAction::Finish(Err(AppError::InternalServerError)),
                    )
                } else if outcome == CheckOutcome::Verified(true) {
                    (
                        PasswordChangeFlow::AwaitingHash {
                            user_id,
                            new_password: new_password.clone(),
                        },
                        PasswordChangeAction::HashPassword { password: new_password },
                    )
                } else {
                    (
                        PasswordChangeFlow::Finished,
                        PasswordChangeAction::Finish(Err(AppError::InvalidCredentials)),
                    )
                }
            },
            (
                PasswordChangeFlow::AwaitingHash { user_id, new_password },
                PasswordChangeEvent::PasswordHashed(hashed),
            ) => {
                let for_password = hashed.is_for(&new_password);
                let result = hashed.into_result();
                match result {
                    HashResult::Hashed(password_hash) if for_password => {
                        let text = uuid_to_string(user_id);
                        match parse_uuid(text.as_str()) {
                            Some(id) => (
                                PasswordChangeFlow::AwaitingUpdate,
                                PasswordChangeAction::UpdatePassword { user_id: id, password_hash },
                            ),
                            None => (
                                PasswordChangeFlow::Finished,
                                PasswordChangeAction::Finish(Err(AppError::InvalidId)),
                            ),
                        }
                    },
                    _ => (
                        PasswordChangeFlow::Finished,
                        PasswordChangeAction::Finish(Err(AppError::InternalServerError)),
                    ),
                }
            },
            (PasswordChangeFlow::AwaitingUpdate, PasswordChangeEvent::PasswordUpdated(updated)) => {
                match updated {
                    Ok(_) => {
                        let reply = auth_reply(OK, "Password changed successfully!", None, None);
                        (PasswordChangeFlow::Finished, PasswordChangeAction::Finish(Ok(reply)))
                    },
                    Err(e) => (
                        PasswordChangeFlow::Finished,
                        PasswordChangeAction::Finish(Err(AppError::Database(e))),
                    ),
                }
            },
            _ => (
                PasswordChangeFlow::Finished,
                PasswordChangeAction::Finish(Err(AppError::InternalServerError)),
            ),
        }
    }
}

/// Step `i` of a recorded password change follows its transition.
pub open spec fn password_change_step_taken(
    flows: Seq<PasswordChangeFlow>,
    events: Seq<PasswordChangeEvent>,
    actions: Seq<PasswordChangeAction>,
    i: int,
) -> bool {
    password_change_transition(flows[i], events[i], flows[i + 1], actions[i + 1])
}

/// `flows` and `actions` are what a password change went through when fed
/// `events`.
pub open spec fn is_password_change_run(
    auth_user: User,
    req: ChangePasswordRequest,
    events: Seq<PasswordChangeEvent>,
    flows: Seq<PasswordChangeFlow>,
    actions: Seq<PasswordChangeAction>,
) -> bool {
    &&& flows.len() == events.len() + 1
    &&& actions.len() == events.len() + 1
    &&& password_change_started(auth_user, req, flows[0], actions[0])
    &&& forall|i: int|
        0 <= i < events.len() ==> #[trigger] password_change_step_taken(flows, events, actions, i)
}

/// `event` reported the account `user_id` with the stored hash `hash`.
pub open spec fn account_found(event: PasswordChangeEvent, user_id: u128, hash: Seq<char>) -> bool {
    event matches PasswordChangeEvent::UserFound(Ok(user)) && user.id == user_id && user.password@
        == hash
}

/// `event` reported the account `user_id`, against whose stored hash
/// bcrypt accepts `password`.
pub open spec fn account_matching(
    event: PasswordChangeEvent,
    user_id: u128,
    password: Seq<char>,
) -> bool {
    event matches PasswordChangeEvent::UserFound(Ok(user)) && user.id == user_id && bcrypt_verdict(
        password,
        user.password@,
    ) == Some(true)
}

proof fn lemma_password_change_history(
    auth_user: User,
    req: ChangePasswordRequest,
    events: Seq<PasswordChangeEvent>,
    flows: Seq<PasswordChangeFlow>,
    actions: Seq<PasswordChangeAction>,
    k: int,
)
    requires
        is_password_change_run(auth_user, req, events, flows, actions),
        0 <= k <= events.len(),
    ensures
        flows[k] matches PasswordChangeFlow::AwaitingUser { old_password, new_password }
            ==> old_password == req.old_password && new_password == req.new_password,
        flows[k] matches PasswordChangeFlow::AwaitingCheck {
            user_id,
            old_password,
            hash,
            new_password,
        } ==> old_password == req.old_password && new_password == req.new_password && exists|
            j: int,
        | 0 <= j < k && #[trigger] account_found(events[j], user_id, hash@),
        flows[k] matches PasswordChangeFlow::AwaitingHash { user_id, new_password }
            ==> new_password == req.new_password && exists|j: int|
            0 <= j < k && #[trigger] account_matching(events[j], user_id, req.old_password@),
    decreases k,
{
    if k > 0 {
        lemma_password_change_history(auth_user, req, events, flows, actions, k - 1);
        assert(password_change_step_taken(flows, events, actions, k - 1));
        if let PasswordChangeFlow::AwaitingCheck { user_id, hash, .. } = flows[k] {
            assert(account_found(events[k - 1], user_id, hash@));
        }
        if let PasswordChangeFlow::AwaitingHash { user_id, .. } = flows[k] {
            if let PasswordChangeFlow::AwaitingCheck { user_id: u, hash, .. } = flows[k - 1] {
                let j = choose|j: int|
                    0 <= j < k - 1 && #[trigger] account_found(events[j], u, hash@);
                assert(account_matching(events[j], user_id, req.old_password@));
            }
        }
    }
}

/// A password change stores, for an account, a new hash only after the
/// database reported that account with a stored hash against which bcrypt
/// accepts the submitted old password; and the new hash is made at the
/// service's work factor and bcrypt accepts the submitted new password
/// against it.
pub proof fn password_change_needs_old_password(
    auth_user: User,
    req: ChangePasswordRequest,
    events: Seq<PasswordChangeEvent>,
    flows: Seq<PasswordChangeFlow>,
    actions: Seq<PasswordChangeAction>,
    k: int,
    user_id: u128,
    password_hash: String,
)
    requires
        is_password_change_run(auth_user, req, events, flows, actions),
        0 <= k < actions.len(),
        actions[k] == (PasswordChangeAction::UpdatePassword { user_id, password_hash }),
    ensures
        exists|j: int| 0 <= j < k && #[trigger] account_matching(events[j], user_id, req.old_password@),
        fresh_hash(req.new_password@, password_hash@),
{
    if k == 0 {
        assert(actions[0] is FindUser);
    } else {
        assert(password_change_step_taken(flows, events, actions, k - 1));
        lemma_password_change_history(auth_user, req, events, flows, actions, k - 1);
        assert(flows[k - 1] is AwaitingHash);
    }
}

// ---------------------------------------------------------------- what each step answers

/// A successful answer of the authentication endpoints has the given status
/// and the body `{"status": "success", "message": .., "token": .., "data": ..}`
/// with the given message, the token alone in a one-element list (or no
/// token), and the given user data.
pub proof fn auth_reply_shape(
    r: Reply,
    status: u16,
    message: Seq<char>,
    token: Option<String>,
    data: Option<UserResponse>,
)
    requires
        is_auth_reply(r, status, message, token, data),
    ensures
        r.status == status,
        r.body is Auth,
        r.body->Auth_0.status@ == "success"@,
        r.body->Auth_0.message@ == message,
        r.body->Auth_0.data == data,
        token is None ==> r.body->Auth_0.token is None,
        token matches Some(t) ==> (r.body->Auth_0.token matches Some(v) && v@.len() == 1 && v@[0]
            == t),
{
}

/// A login looks up the lower-cased user name and keeps the submitted
/// password for the check.
pub proof fn login_start_law(req: LoginUserRequest, is_production: bool, flow: LoginFlow, action: LoginAction)
    requires
        login_started(req, is_production, flow, action),
    ensures
        flow == (LoginFlow::AwaitingUser { password: req.password, is_production }),
        action is FindUser && action->FindUser_username@ == lowercase_of(req.username@),
{
}

/// After the lookup of a login: no account is invalid credentials; an
/// account has its stored hash checked against the submitted password.
pub proof fn login_lookup_law(
    password: String,
    is_production: bool,
    found: Result<User, DbError>,
    next: LoginFlow,
    action: LoginAction,
)
    requires
        login_transition(
            LoginFlow::AwaitingUser { password, is_production },
            LoginEvent::UserFound(found),
            next,
            action,
        ),
    ensures
        found is Err ==> next == LoginFlow::Finished && action == LoginAction::Finish(
            Err(AppError::InvalidCredentials),
        ),
        found matches Ok(user) ==> action == (LoginAction::VerifyPassword {
            password,
            hash: user.password,
        }) && next == (LoginFlow::AwaitingCheck {
            user_id: user.id,
            password,
            hash: user.password,
            is_production,
        }),
{
}

/// After the password check of a login (about the awaited password and
/// hash): a match goes on to sign a token for the account; a mismatch or a
/// hash bcrypt refuses is invalid credentials; a dead background task, or a
/// check of other values, is an internal server error.
pub proof fn login_check_law(
    user_id: u128,
    password: String,
    hash: String,
    is_production: bool,
    check: PasswordCheck,
    next: LoginFlow,
    action: LoginAction,
)
    requires
        login_transition(
            LoginFlow::AwaitingCheck { user_id, password, hash, is_production },
            LoginEvent::PasswordChecked(check),
            next,
            action,
        ),
    ensures
        (check.reported() is TaskFailed || check.password() != password@ || check.hash() != hash@)
            ==> action == LoginAction::Finish(Err(AppError::InternalServerError)),
        check.password() == password@ && check.hash() == hash@ ==> {
            &&& check.reported() == CheckOutcome::Verified(true) ==> action == (LoginAction::IssueToken {
                user_id,
            }) && next == (LoginFlow::AwaitingToken { user_id, is_production })
            &&& check.reported() == CheckOutcome::Verified(false) ==> action == LoginAction::Finish(
                Err(AppError::InvalidCredentials),
            )
            &&& check.reported() is Failed ==> action == LoginAction::Finish(
                Err(AppError::InvalidCredentials),
            )
        },
{
}

/// After the token of a login was signed: the token cookie is set for the
/// account, which is then marked active; a failure to sign is answered as
/// that error.
pub proof fn login_token_law(
    user_id: u128,
    is_production: bool,
    issued: Result<String, AppError>,
    next: LoginFlow,
    action: LoginAction,
)
    requires
        login_transition(
            LoginFlow::AwaitingToken { user_id, is_production },
            LoginEvent::TokenIssued(issued),
            next,
            action,
        ),
    ensures
        issued matches Ok(token) ==> next == (LoginFlow::AwaitingActivation { token }) && action
            is ActivateUser && action->ActivateUser_user_id == user_id && is_token_cookie(
            action->ActivateUser_cookie,
            token@,
            is_production,
        ),
        issued matches Err(e) ==> action == LoginAction::Finish(Err(e)),
{
}

/// A login ends, once the account is marked active, with `200` and the
/// message `Login Successfull!!`, the token, and the public part of the
/// account as the database returned it; a database failure there is answered
/// as that error.
pub proof fn login_activation_law(
    token: String,
    activated: Result<User, DbError>,
    next: LoginFlow,
    action: LoginAction,
)
    requires
        login_transition(
            LoginFlow::AwaitingActivation { token },
            LoginEvent::UserActivated(activated),
            next,
            action,
        ),
    ensures
        next == LoginFlow::Finished,
        activated matches Ok(user) ==> action is Finish && action->Finish_0 is Ok && is_auth_reply(
            action->Finish_0->Ok_0,
            200,
            "Login Successfull!!"@,
            Some(token),
            Some(public_part(user)),
        ),
        activated matches Err(e) ==> action == LoginAction::Finish(Err(AppError::Database(e))),
{
}

/// A registration first asks whether the lower-cased user name is taken in
/// `users`, keeping the full name, the lower-cased user name and e-mail
/// address and the password; the scan checks the lower-cased user name and
/// then the e-mail address as submitted.
pub proof fn register_start_law(
    req: CreateUserRequest,
    is_production: bool,
    flow: RegisterFlow,
    action: RegisterAction,
)
    requires
        register_started(req, is_production, flow, action),
    ensures
        action is QueryExists,
        action->QueryExists_sql@ == exists_query("users"@, "username"@),
        action->QueryExists_value@ == lowercase_of(req.username@),
        flow is CheckingConflicts,
        flow->CheckingConflicts_full_name == req.full_name,
        flow->CheckingConflicts_username@ == lowercase_of(req.username@),
        flow->CheckingConflicts_email@ == lowercase_of(req.email@),
        flow->CheckingConflicts_password == req.password,
        flow->CheckingConflicts_scan.fields().len() == 2,
        flow->CheckingConflicts_scan.fields()[0].0@ == "username"@,
        flow->CheckingConflicts_scan.fields()[0].1@ == lowercase_of(req.username@),
        flow->CheckingConflicts_scan.fields()[1].0@ == "email"@,
        flow->CheckingConflicts_scan.fields()[1].1 == req.email,
        flow->CheckingConflicts_scan.answers().len() == 0,
{
}

/// After an answer to a uniqueness query of a registration: a database
/// failure is answered as that error; when columns remain, the next one is
/// asked about; otherwise the password is hashed if no value is taken, and
/// else the answer is a conflict listing exactly the columns answered taken.
pub proof fn register_scan_law(
    scan: ConflictScan,
    full_name: String,
    username: String,
    email: String,
    password: String,
    is_production: bool,
    answer: Result<bool, DbError>,
    next: RegisterFlow,
    action: RegisterAction,
)
    requires
        register_transition(
            RegisterFlow::CheckingConflicts {
                scan,
                full_name,
                username,
                email,
                password,
                is_production,
            },
            RegisterEvent::ExistsChecked(answer),
            next,
            action,
        ),
        scan.pending(),
    ensures
        answer matches Err(e) ==> action == RegisterAction::Finish(
            CookieEffect::Unchanged,
            Err(AppError::Database(e)),
        ),
        answer matches Ok(taken) ==> {
            let answers = scan.answers().push(taken);
            let n = answers.len() as int;
            &&& n < scan.fields().len() ==> action is QueryExists && action->QueryExists_sql@
                == exists_query(scan.table(), scan.fields()[n].0@) && action->QueryExists_value
                == scan.fields()[n].1
            &&& (n == scan.fields().len() && forall|i: int| 0 <= i < n ==> !#[trigger] answers[i])
                ==> action == (RegisterAction::HashPassword { password }) && next == (
            RegisterFlow::AwaitingHash { full_name, username, email, password, is_production })
            &&& (n == scan.fields().len() && exists|i: int| 0 <= i < n && #[trigger] answers[i])
                ==> action is Finish && action->Finish_0 is Unchanged && action->Finish_1 is Err
                && action->Finish_1->Err_0 is Conflict && forall|x: String|
                action->Finish_1->Err_0->Conflict_0@.contains(x) <==> answered_taken(
                    scan.fields(),
                    answers,
                    x,
                )
        },
{
    if let Ok(taken) = answer {
        let answers = scan.answers().push(taken);
        crate::services::conflict::lemma_none_taken(scan.fields(), answers);
        if answers.len() == scan.fields().len() {
            assert forall|x: String|
                taken_columns(scan.fields(), answers).contains(x) <==> answered_taken(
                    scan.fields(),
                    answers,
                    x,
                ) by {
                crate::services::conflict::taken_columns_are_answered_taken(scan.fields(), answers, x);
            }
        }
    }
}

/// After the hashing of a registration: a new hash of the submitted password
/// is stored with the full name and the lower-cased names kept; a failed
/// hashing, or a hashing of another password, is an internal server error.
pub proof fn register_hash_law(
    full_name: String,
    username: String,
    email: String,
    password: String,
    is_production: bool,
    hashed: PasswordHash,
    next: RegisterFlow,
    action: RegisterAction,
)
    requires
        register_transition(
            RegisterFlow::AwaitingHash { full_name, username, email, password, is_production },
            RegisterEvent::PasswordHashed(hashed),
            next,
            action,
        ),
    ensures
        hashed.password() == password@ ==> (hashed.reported() matches HashResult::Hashed(h) ==> action
            == (RegisterAction::InsertUser { full_name, username, email, password_hash: h })
            && next == (RegisterFlow::AwaitingInsert { is_production })),
        !(hashed.password() == password@ && hashed.reported() is Hashed) ==> action
            == RegisterAction::Finish(CookieEffect::Unchanged, Err(AppError::InternalServerError)),
{
}

/// After the insertion of a registration: a token is signed for the stored
/// account; a database failure is answered as that error.
pub proof fn register_insert_law(
    is_production: bool,
    inserted: Result<User, DbError>,
    next: RegisterFlow,
    action: RegisterAction,
)
    requires
        register_transition(
            RegisterFlow::AwaitingInsert { is_production },
            RegisterEvent::UserInserted(inserted),
            next,
            action,
        ),
    ensures
        inserted matches Ok(user) ==> action == (RegisterAction::IssueToken { user_id: user.id })
            && next == (RegisterFlow::AwaitingToken { user, is_production }),
        inserted matches Err(e) ==> action == RegisterAction::Finish(
            CookieEffect::Unchanged,
            Err(AppError::Database(e)),
        ),
{
}

/// A registration ends, once the token is signed, by setting the token cookie
/// and answering `201` with the message `Resgistration Successfull!!`, the
/// token and the public part of the stored account; a failure to sign is
/// answered as that error, leaving the cookies unchanged.
pub proof fn register_token_law(
    user: User,
    is_production: bool,
    issued: Result<String, AppError>,
    next: RegisterFlow,
    action: RegisterAction,
)
    requires
        register_transition(
            RegisterFlow::AwaitingToken { user, is_production },
            RegisterEvent::TokenIssued(issued),
            next,
            action,
        ),
    ensures
        next == RegisterFlow::Finished,
        issued matches Ok(token) ==> action is Finish && action->Finish_0 is Store && is_token_cookie(
            action->Finish_0->Store_0,
            token@,
            is_production,
        ) && action->Finish_1 is Ok && is_auth_reply(
            action->Finish_1->Ok_0,
            201,
            "Resgistration Successfull!!"@,
            Some(token),
            Some(public_part(user)),
        ),
        issued matches Err(e) ==> action == RegisterAction::Finish(CookieEffect::Unchanged, Err(e)),
{
}

/// A logout ends, once the account is marked inactive, by removing the token
/// cookie and answering `200` with the message `Logout Successfull!!` and no
/// token or data; a database failure there is answered as that error.
pub proof fn logout_law(deactivated: Result<User, DbError>, next: LogoutFlow, action: LogoutAction)
    requires
        logout_transition(LogoutFlow::AwaitingDeactivation, deactivated, next, action),
    ensures
        next == LogoutFlow::Finished,
        deactivated is Ok ==> action is Finish && action->Finish_0 is Remove && is_token_removal(
            action->Finish_0->Remove_0,
        ) && action->Finish_1 is Ok && is_auth_reply(
            action->Finish_1->Ok_0,
            200,
            "Logout Successfull!!"@,
            None,
            None,
        ),
        deactivated matches Err(e) ==> action == LogoutAction::Finish(
            CookieEffect::Unchanged,
            Err(AppError::Database(e)),
        ),
{
}

/// A password change looks up the authenticated user's name as stored.
pub proof fn password_change_start_law(
    auth_user: User,
    req: ChangePasswordRequest,
    flow: PasswordChangeFlow,
    action: PasswordChangeAction,
)
    requires
        password_change_started(auth_user, req, flow, action),
    ensures
        action == (PasswordChangeAction::FindUser { username: auth_user.username }),
        flow == (PasswordChangeFlow::AwaitingUser {
            old_password: req.old_password,
            new_password: req.new_password,
        }),
{
}

/// The steps of a password change: a missing account is unauthorized; an
/// account has its stored hash checked against the old password; a match
/// hashes the new password, a mismatch or a refused hash is invalid
/// credentials, a dead check or a check of other values an internal server
/// error; a new hash of the new password is stored for the account, any other
/// hashing result is an internal server error; once stored, the answer is
/// `200` with the message `Password changed successfully!` and no token or
/// data, and a database failure there is answered as that error.
pub proof fn password_change_steps_law(
    flow: PasswordChangeFlow,
    event: PasswordChangeEvent,
    next: PasswordChangeFlow,
    action: PasswordChangeAction,
)
    requires
        password_change_transition(flow, event, next, action),
    ensures
        flow is AwaitingUser ==> (event matches PasswordChangeEvent::UserFound(Err(_)) ==> action
            == PasswordChangeAction::Finish(Err(AppError::Unauthorized))),
        flow is AwaitingUser ==> (event matches PasswordChangeEvent::UserFound(Ok(user)) ==> action
            == (PasswordChangeAction::VerifyPassword {
            password: flow->AwaitingUser_old_password,
            hash: user.password,
        })),
        flow is AwaitingCheck ==> (event matches PasswordChangeEvent::PasswordChecked(check) ==> {
            let old_password = flow->AwaitingCheck_old_password;
            let hash = flow->AwaitingCheck_hash;
            &&& (check.reported() is TaskFailed || check.password() != old_password@ || check.hash()
                != hash@) ==> action == PasswordChangeAction::Finish(
                Err(AppError::InternalServerError),
            )
            &&& (check.password() == old_password@ && check.hash() == hash@ && check.reported()
                == CheckOutcome::Verified(true)) ==> action == (PasswordChangeAction::HashPassword {
                password: flow->AwaitingCheck_new_password,
            })
            &&& (check.password() == old_password@ && check.hash() == hash@ && (check.reported()
                == CheckOutcome::Verified(false) || check.reported() is Failed)) ==> action
                == PasswordChangeAction::Finish(Err(AppError::InvalidCredentials))
        }),
        flow is AwaitingHash ==> (event matches PasswordChangeEvent::PasswordHashed(hashed) ==> {
            let new_password = flow->AwaitingHash_new_password;
            &&& (hashed.password() == new_password@ && hashed.reported() is Hashed) ==> action == (
            PasswordChangeAction::UpdatePassword {
                user_id: flow->AwaitingHash_user_id,
                password_hash: hashed.reported()->Hashed_0,
            })
            &&& !(hashed.password() == new_password@ && hashed.reported() is Hashed) ==> action
                == PasswordChangeAction::Finish(Err(AppError::InternalServerError))
        }),
        flow is AwaitingUpdate ==> (event matches PasswordChangeEvent::PasswordUpdated(Ok(_)) ==> action
            is Finish && action->Finish_0 is Ok && is_auth_reply(
            action->Finish_0->Ok_0,
            200,
            "Password changed successfully!"@,
            None,
            None,
        )),
        flow is AwaitingUpdate ==> (event matches PasswordChangeEvent::PasswordUpdated(Err(e)) ==> action
            == PasswordChangeAction::Finish(Err(AppError::Database(e)))),
{
}

} // verus!
