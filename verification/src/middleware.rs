//! Request guards: authentication by access-token cookie, and the admin gate.
use vstd::prelude::*;

use crate::error::{AppError, DbError};
use crate::clock::{utc_now, MAX_TIMESTAMP_SECS};
use crate::ids::parsed_uuid;
use crate::models::User;
use crate::services::jwt::{
    admit_claims, claims_admission, hs256_payload, hs256_token, issuable_at, issued_claims,
    token_expired, token_payload, verify_hs256, Claims, TOKEN_LEEWAY_SECS, TOKEN_LIFETIME_SECS,
};

verus! {

/// What the authentication guard asks for next.
#[derive(Debug)]
pub enum AuthAction {
    /// Read the claims (`sub`, `exp`, `iat`) from this signed JSON payload.
    ParseClaims { payload: String },
    /// Look up the account with this identifier.
    FindUser { user_id: u128 },
    /// Let the request through, carrying the token's claims and the account.
    Admit { claims: Claims, user: User },
    /// Refuse the request with this error.
    Reject(AppError),
}

/// What was reported about the last action of the authentication guard.
#[derive(Debug)]
pub enum AuthEvent {
    /// The claims read from the payload, or `None` when it does not hold them.
    ClaimsParsed(Option<Claims>),
    UserFound(Result<User, DbError>),
}

/// Where an authentication stands.
#[derive(Debug)]
pub enum AuthFlow {
    AwaitingClaims { payload: String },
    AwaitingUser { claims: Claims },
    Finished,
}

/// An authentication starts by checking the signature of the access-token
/// cookie's token with the service secret; a request without the cookie, or
/// with a token whose signature does not match, is unauthorized.
pub open spec fn auth_started(
    cookie: Option<String>,
    secret: Seq<char>,
    flow: AuthFlow,
    action: AuthAction,
) -> bool {
    match cookie {
        Some(token) => match hs256_payload(token@, secret) {
            Some(p) => {
                &&& flow matches AuthFlow::AwaitingClaims { payload }
                &&& payload@ == p
                &&& action matches AuthAction::ParseClaims { payload: q }
                &&& q@ == p
            },
            None => flow == AuthFlow::Finished && action == AuthAction::Reject(
                AppError::Unauthorized,
            ),
        },
        None => flow == AuthFlow::Finished && action == AuthAction::Reject(AppError::Unauthorized),
    }
}

/// How the guard moves on with the verdict on the claims: ask for the named
/// user, or refuse.
pub open spec fn admission_moves(
    claims: Claims,
    verdict: Result<u128, AppError>,
    next: AuthFlow,
    action: AuthAction,
) -> bool {
    match verdict {
        Ok(user_id) => next == (AuthFlow::AwaitingUser { claims }) && action
            == AuthAction::FindUser { user_id },
        Err(e) => next == AuthFlow::Finished && action == AuthAction::Reject(e),
    }
}

/// One step of an authentication, with the clock reading `now`: a payload
/// without the claims is unauthorized; the claims are judged by
/// `claims_admission` at `now`; a subject with no account is a missing user;
/// a report that does not belong to the step is an internal server error.
pub open spec fn auth_transition_at(
    flow: AuthFlow,
    event: AuthEvent,
    now: i64,
    next: AuthFlow,
    action: AuthAction,
) -> bool {
    match (flow, event) {
        (AuthFlow::AwaitingClaims { .. }, AuthEvent::ClaimsParsed(parsed)) => match parsed {
            None => next == AuthFlow::Finished && action == AuthAction::Reject(AppError::Unauthorized),
            Some(claims) => admission_moves(claims, claims_admission(claims, now), next, action),
        },
        (AuthFlow::AwaitingUser { claims }, AuthEvent::UserFound(found)) => {
            &&& next == AuthFlow::Finished
            &&& match found {
                Ok(user) => action == AuthAction::Admit { claims, user },
                Err(_) => action == AuthAction::Reject(AppError::UserNotFound),
            }
        },
        _ => next == AuthFlow::Finished && action == AuthAction::Reject(AppError::InternalServerError),
    }
}

/// One step of an authentication at some reading of the clock.
pub open spec fn auth_transition(flow: AuthFlow, event: AuthEvent, next: AuthFlow, action: AuthAction) -> bool {
    exists|now: i64|
        0 <= now <= MAX_TIMESTAMP_SECS && #[trigger] auth_transition_at(flow, event, now, next, action)
}

/// `action` asks to read the claims from the payload `p`.
pub open spec fn parses_payload(action: AuthAction, p: Seq<char>) -> bool {
    action matches AuthAction::ParseClaims { payload } && payload@ == p
}

/// Starts authenticating a request from the value of its access-token
/// cookie, if it has one, with the service's token secret. A token this
/// service signed is passed on with exactly the payload it was signed with.
pub fn auth(cookie: Option<String>, secret: &str) -> (r: (AuthFlow, AuthAction))
    ensures
        auth_started(cookie, secret@, r.0, r.1),
        cookie matches Some(token) ==> forall|id: u128, at: i64|
            hs256_token(#[trigger] token_payload(id, at), secret@) == Some(token@) ==> parses_payload(
                r.1,
                token_payload(id, at),
            ),
{
    match cookie {
        Some(token) => match verify_hs256(token.as_str(), secret) {
            Some(payload) => (
                AuthFlow::AwaitingClaims { payload: payload.clone() },
                AuthAction::ParseClaims { payload },
            ),
            None => (AuthFlow::Finished, AuthAction::Reject(AppError::Unauthorized)),
        },
        None => (AuthFlow::Finished, AuthAction::Reject(AppError::Unauthorized)),
    }
}

/// The claims of a token this service issued make the guard ask for the
/// token's user, unless `now` is past the token's expiry and leeway
/// (`token_expired`).
pub open spec fn admits_issued_claims(flow: AuthFlow, event: AuthEvent, now: i64, action: AuthAction) -> bool {
    flow is AwaitingClaims ==> (event matches AuthEvent::ClaimsParsed(Some(c)) ==> forall|
        id: u128,
        at: i64,
    |
        issuable_at(at) && at + TOKEN_LIFETIME_SECS <= usize::MAX && #[trigger] issued_claims(
            c,
            id,
            at,
        ) ==> action == (AuthAction::FindUser { user_id: id }) || (action == AuthAction::Reject(
            AppError::Unauthorized,
        ) && token_expired(c.exp, now)))
}

impl AuthFlow {
    /// Takes the report of the last action and names the next one, judging
    /// claims at the clock reading `now`.
    pub fn step_at(self, event: AuthEvent, now: i64) -> (r: (AuthFlow, AuthAction))
        ensures
            auth_transition_at(self, event, now, r.0, r.1),
            admits_issued_claims(self, event, now, r.1),
    {
        match (self, event) {
            (AuthFlow::AwaitingClaims { .. }, AuthEvent::ClaimsParsed(parsed)) => match parsed {
                None => (AuthFlow::Finished, AuthAction::Reject(AppError::Unauthorized)),
                Some(claims) => {
                    let verdict = admit_claims(&claims, now);
                    match verdict {
                        Ok(user_id) => (AuthFlow::AwaitingUser { claims }, AuthAction::FindUser { user_id }),
                        Err(e) => (AuthFlow::Finished, AuthAction::Reject(e)),
                    }
                },
            },
            (AuthFlow::AwaitingUser { claims }, AuthEvent::UserFound(found)) => match found {
                Ok(user) => (AuthFlow::Finished, AuthAction::Admit { claims, user }),
                Err(_) => (AuthFlow::Finished, AuthAction::Reject(AppError::UserNotFound)),
            },
            _ => (AuthFlow::Finished, AuthAction::Reject(AppError::InternalServerError)),
        }
    }

    /// Takes the report of the last action and names the next one, judging
    /// claims at the time the clock reads now.
    pub fn step(self, event: AuthEvent) -> (r: (AuthFlow, AuthAction))
        ensures
            exists|now: i64|
                0 <= now <= MAX_TIMESTAMP_SECS && #[trigger] auth_transition_at(self, event, now, r.0, r.1)
                    && admits_issued_claims(self, event, now, r.1),
    {
        let now = utc_now();
        self.step_at(event, now.secs)
    }
}

/// Step `i` of a recorded authentication follows its transition.
pub open spec fn auth_step_taken(
    flows: Seq<AuthFlow>,
    events: Seq<AuthEvent>,
    actions: Seq<AuthAction>,
    i: int,
) -> bool {
    auth_transition(flows[i], events[i], flows[i + 1], actions[i + 1])
}

/// `flows` and `actions` are what an authentication of a request with the
/// cookie value `cookie` went through when fed `events`.
pub open spec fn is_auth_run(
    cookie: Option<String>,
    secret: Seq<char>,
    events: Seq<AuthEvent>,
    flows: Seq<AuthFlow>,
    actions: Seq<AuthAction>,
) -> bool {
    &&& flows.len() == events.len() + 1
    &&& actions.len() == events.len() + 1
    &&& auth_started(cookie, secret, flows[0], actions[0])
    &&& forall|i: int| 0 <= i < events.len() ==> #[trigger] auth_step_taken(flows, events, actions, i)
}

/// The cookie's token carries a matching signature, and at some reading of
/// the clock the guard admitted `claims`, reported as read from its payload.
pub open spec fn admitted_from_cookie(cookie: Option<String>, secret: Seq<char>, claims: Claims) -> bool {
    &&& cookie matches Some(token)
    &&& hs256_payload(token@, secret) is Some
    &&& exists|now: i64| 0 <= now <= MAX_TIMESTAMP_SECS && (#[trigger] claims_admission(claims, now)) is Ok
}

proof fn lemma_auth_waiting(
    cookie: Option<String>,
    secret: Seq<char>,
    events: Seq<AuthEvent>,
    flows: Seq<AuthFlow>,
    actions: Seq<AuthAction>,
    k: int,
)
    requires
        is_auth_run(cookie, secret, events, flows, actions),
        0 <= k <= events.len(),
    ensures
        flows[k] matches AuthFlow::AwaitingClaims { payload } ==> cookie matches Some(token)
            && hs256_payload(token@, secret) == Some(payload@),
        flows[k] matches AuthFlow::AwaitingUser { claims } ==> admitted_from_cookie(
            cookie,
            secret,
            claims,
        ),
    decreases k,
{
    if k > 0 {
        lemma_auth_waiting(cookie, secret, events, flows, actions, k - 1);
        assert(auth_step_taken(flows, events, actions, k - 1));
        if let AuthFlow::AwaitingUser { claims } = flows[k] {
            if let AuthFlow::AwaitingClaims { payload } = flows[k - 1] {
                if let AuthEvent::ClaimsParsed(Some(c)) = events[k - 1] {
                    let now = choose|now: i64|
                        0 <= now <= MAX_TIMESTAMP_SECS && #[trigger] auth_transition_at(
                            flows[k - 1],
                            events[k - 1],
                            now,
                            flows[k],
                            actions[k],
                        );
                    assert(claims_admission(claims, now) is Ok);
                }
            }
        }
    }
}

/// The guard lets a request through only when the cookie's token carries a
/// matching signature (and passed the claim checks that need no clock), with
/// the claims reported as read from the payload it handed out for parsing,
/// admitted at some reading of the clock (so not past their expiry and
/// leeway, and with a UUID subject), and with the account the database then
/// reported.
pub proof fn auth_admits_only_verified_tokens(
    cookie: Option<String>,
    secret: Seq<char>,
    events: Seq<AuthEvent>,
    flows: Seq<AuthFlow>,
    actions: Seq<AuthAction>,
    k: int,
    claims: Claims,
    user: User,
)
    requires
        is_auth_run(cookie, secret, events, flows, actions),
        0 <= k < actions.len(),
        actions[k] == (AuthAction::Admit { claims, user }),
    ensures
        k > 1,
        events[k - 1] == AuthEvent::UserFound(Ok(user)),
        events[k - 2] == AuthEvent::ClaimsParsed(Some(claims)),
        flows[k - 2] matches AuthFlow::AwaitingClaims { payload } && cookie matches Some(token)
            && hs256_payload(token@, secret) == Some(payload@),
        admitted_from_cookie(cookie, secret, claims),
{
    if k == 0 {
        assert(!(actions[0] is Admit));
    } else {
        assert(auth_step_taken(flows, events, actions, k - 1));
        lemma_auth_waiting(cookie, secret, events, flows, actions, k - 1);
        assert(flows[k - 1] == AuthFlow::AwaitingUser { claims });
        if k == 1 {
            assert(!(flows[0] is AwaitingUser));
        } else {
            assert(auth_step_taken(flows, events, actions, k - 2));
            lemma_auth_waiting(cookie, secret, events, flows, actions, k - 2);
        }
    }
}

/// How the guard starts: a request without the access-token cookie, or whose
/// token's signature does not match the secret (or that fails the claim
/// checks that need no clock), is unauthorized; otherwise the payload that
/// `jsonwebtoken` verified is handed out for reading the claims.
pub proof fn guard_start_law(cookie: Option<String>, secret: Seq<char>, flow: AuthFlow, action: AuthAction)
    requires
        auth_started(cookie, secret, flow, action),
    ensures
        cookie is None ==> flow == AuthFlow::Finished && action == AuthAction::Reject(
            AppError::Unauthorized,
        ),
        cookie matches Some(token) ==> (hs256_payload(token@, secret) is None ==> action
            == AuthAction::Reject(AppError::Unauthorized)),
        cookie matches Some(token) ==> (hs256_payload(token@, secret) matches Some(p) ==> action
            is ParseClaims && action->ParseClaims_payload@ == p && flow is AwaitingClaims),
{
}

/// Once the claims were admitted, the guard lets the request through with
/// those claims and whatever account the database reports for them, whatever
/// that account's flags; a failed lookup is a missing user.
pub proof fn guard_admits_the_found_account(
    claims: Claims,
    found: Result<User, DbError>,
    now: i64,
    next: AuthFlow,
    action: AuthAction,
)
    requires
        auth_transition_at(
            AuthFlow::AwaitingUser { claims },
            AuthEvent::UserFound(found),
            now,
            next,
            action,
        ),
    ensures
        next is Finished,
        found matches Ok(user) ==> action == (AuthAction::Admit { claims, user }),
        found is Err ==> action == AuthAction::Reject(AppError::UserNotFound),
{
}

/// The verdict on parsed claims: claims past their expiry and leeway are
/// refused as unauthorized; otherwise a subject that parses as a UUID is
/// looked up, and any other subject is an invalid identifier.
pub proof fn guard_judges_claims(
    payload: String,
    claims: Claims,
    now: i64,
    next: AuthFlow,
    action: AuthAction,
)
    requires
        auth_transition_at(
            AuthFlow::AwaitingClaims { payload },
            AuthEvent::ClaimsParsed(Some(claims)),
            now,
            next,
            action,
        ),
    ensures
        claims.exp + TOKEN_LEEWAY_SECS < now ==> action == AuthAction::Reject(AppError::Unauthorized),
        now <= claims.exp + TOKEN_LEEWAY_SECS ==> match parsed_uuid(claims.sub@) {
            Some(id) => action == (AuthAction::FindUser { user_id: id }) && next == (
            AuthFlow::AwaitingUser { claims }),
            None => action == AuthAction::Reject(AppError::InvalidId),
        },
{
}

/// The admin gate: lets through the accounts with administrator rights and
/// refuses every other as restricted.
pub fn is_admin(auth_user: &User) -> (r: Result<(), AppError>)
    ensures
        r is Ok <==> auth_user.is_admin,
        r matches Err(e) ==> e == AppError::Restricted,
{
    if auth_user.is_admin {
        Ok(())
    } else {
        Err(AppError::Restricted)
    }
}

} // verus!
