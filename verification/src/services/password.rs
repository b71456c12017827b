//! Password hashing and checking with bcrypt.
//!
//! A `PasswordCheck` or a `PasswordHash` can only be made by running bcrypt
//! here (or, for a background task that died, as a bare failure), so a flow
//! that receives one knows what bcrypt said about which password.
use vstd::prelude::*;
use vstd::string::*;

use crate::text::decimal;

verus! {

/// The bcrypt work factor of new hashes.
pub const HASH_COST: u32 = 10;

/// What `bcrypt::verify` yields for a password and a stored hash: whether
/// they match, or `None` when it refuses the hash (or the password).
pub uninterp spec fn bcrypt_verdict(password: Seq<char>, hash: Seq<char>) -> Option<bool>;

/// Checks a password through `bcrypt::verify`. The verdict is a function of
/// the password and the hash (the salt and cost are read from the hash) and is
/// named `bcrypt_verdict`.
#[verifier::external_body]
fn bcrypt_verify(password: &str, hash: &str) -> (r: Option<bool>)
    ensures
        r == bcrypt_verdict(password@, hash@),
{
    match bcrypt::verify(password, hash) {
        Ok(matches) => Some(matches),
        Err(_) => None,
    }
}

/// The cost field of a bcrypt hash: the work factor in two decimal digits.
pub open spec fn cost_digits(cost: nat) -> Seq<char> {
    if cost < 10 {
        seq!['0'] + decimal(cost)
    } else {
        decimal(cost)
    }
}

/// The opening of a bcrypt hash in the `2b` format made at work factor
/// `cost`: `$2b$`, the two cost digits, and `$`.
pub open spec fn bcrypt_prefix(cost: nat) -> Seq<char> {
    seq!['$', '2', 'b', '$'] + cost_digits(cost) + seq!['$']
}

/// `hash` is a bcrypt hash text in the `2b` format made at work factor
/// `cost`: sixty characters that open with `bcrypt_prefix(cost)`.
pub open spec fn made_at_cost(hash: Seq<char>, cost: nat) -> bool {
    hash.len() == 60 && hash.take(7) == bcrypt_prefix(cost)
}

/// Hashes a password through `bcrypt::hash` with a fresh random salt. Which
/// hash comes back is left open (the salt is random), and so is whether the
/// call fails (it fails for a cost outside 4..=31, and when the system's
/// random source fails). What is stated is what the crate's source shows of a
/// hash it returns: it is written by `HashParts::format` as
/// `$2b$`, the cost as two digits, `$`, then 53 base64 characters of salt and
/// hash, sixty in all; and `verify` re-hashes the password with the cost and
/// salt read from it, so it accepts the password.
#[verifier::external_body]
fn bcrypt_hash(password: &str, cost: u32) -> (r: Option<String>)
    ensures
        r matches Some(h) ==> bcrypt_verdict(password@, h@) == Some(true) && made_at_cost(
            h@,
            cost as nat,
        ),
{
    match bcrypt::hash(password, cost) {
        Ok(h) => Some(h),
        Err(_) => None,
    }
}

/// What a password check reported.
#[derive(Clone, Copy, Debug, PartialEq, Eq, Structural)]
pub enum CheckOutcome {
    /// bcrypt ran: whether the password matches the hash.
    Verified(bool),
    /// bcrypt refused the hash.
    Failed,
    /// The background task running the check panicked or was cancelled.
    TaskFailed,
}

/// The result of checking a password against a stored hash.
pub struct PasswordCheck {
    password: String,
    hash: String,
    outcome: CheckOutcome,
}

impl PasswordCheck {
    #[verifier::type_invariant]
    spec fn inv(self) -> bool {
        match self.outcome {
            CheckOutcome::Verified(b) => bcrypt_verdict(self.password@, self.hash@) == Some(b),
            CheckOutcome::Failed => bcrypt_verdict(self.password@, self.hash@) is None,
            CheckOutcome::TaskFailed => true,
        }
    }

    /// The password checked.
    pub closed spec fn password(&self) -> Seq<char> {
        self.password@
    }

    /// The stored hash it was checked against.
    pub closed spec fn hash(&self) -> Seq<char> {
        self.hash@
    }

    /// What the check reported.
    pub closed spec fn reported(&self) -> CheckOutcome {
        self.outcome
    }

    /// The report of a check whose background task died.
    pub fn task_failed() -> (c: PasswordCheck)
        ensures
            c.reported() == CheckOutcome::TaskFailed,
    {
        PasswordCheck {
            password: String::new(),
            hash: String::new(),
            outcome: CheckOutcome::TaskFailed,
        }
    }

    /// What the check reported; a verdict is bcrypt's verdict on the checked
    /// password and hash.
    pub fn outcome(&self) -> (o: CheckOutcome)
        ensures
            o == self.reported(),
            o matches CheckOutcome::Verified(b) ==> bcrypt_verdict(self.password(), self.hash())
                == Some(b),
            o is Failed ==> bcrypt_verdict(self.password(), self.hash()) is None,
    {
        proof {
            use_type_invariant(self);
        }
        self.outcome
    }

    /// Whether this is the check of `password` against `hash`.
    pub fn is_for(&self, password: &String, hash: &String) -> (r: bool)
        ensures
            r == (self.password() == password@ && self.hash() == hash@),
    {
        self.password == *password && self.hash == *hash
    }
}

/// Checks `password` against the stored `hash` with bcrypt.
pub fn check_password(password: String, hash: String) -> (c: PasswordCheck)
    ensures
        c.password() == password@,
        c.hash() == hash@,
        c.reported() == match bcrypt_verdict(password@, hash@) {
            Some(b) => CheckOutcome::Verified(b),
            None => CheckOutcome::Failed,
        },
{
    let outcome = match bcrypt_verify(password.as_str(), hash.as_str()) {
        Some(b) => CheckOutcome::Verified(b),
        None => CheckOutcome::Failed,
    };
    PasswordCheck { password, hash, outcome }
}

/// What a password hashing reported.
#[derive(Clone, Debug)]
pub enum HashResult {
    /// The new hash.
    Hashed(String),
    /// bcrypt failed.
    Failed,
    /// The background task running the hashing panicked or was cancelled.
    TaskFailed,
}

/// The result of hashing a password.
pub struct PasswordHash {
    password: String,
    result: HashResult,
}

impl PasswordHash {
    #[verifier::type_invariant]
    spec fn inv(self) -> bool {
        self.result matches HashResult::Hashed(h) ==> fresh_hash(self.password@, h@)
    }

    /// The password hashed.
    pub closed spec fn password(&self) -> Seq<char> {
        self.password@
    }

    /// What the hashing reported.
    pub closed spec fn reported(&self) -> HashResult {
        self.result
    }

    /// The report of a hashing whose background task died.
    pub fn task_failed() -> (h: PasswordHash)
        ensures
            h.reported() == HashResult::TaskFailed,
    {
        PasswordHash { password: String::new(), result: HashResult::TaskFailed }
    }

    /// Whether this is the hashing of `password`.
    pub fn is_for(&self, password: &String) -> (r: bool)
        ensures
            r == (self.password() == password@),
    {
        self.password == *password
    }

    /// What the hashing reported; a new hash is one made at the service's
    /// work factor that bcrypt accepts the hashed password against.
    pub fn into_result(self) -> (r: HashResult)
        ensures
            r == self.reported(),
            r matches HashResult::Hashed(h) ==> fresh_hash(self.password(), h@),
    {
        proof {
            use_type_invariant(&self);
        }
        self.result
    }
}

/// A hash made for `password` at the service's work factor: bcrypt accepts
/// the password against it, and it opens with `$2b$10$`.
pub open spec fn fresh_hash(password: Seq<char>, hash: Seq<char>) -> bool {
    bcrypt_verdict(password, hash) == Some(true) && made_at_cost(hash, HASH_COST as nat)
}

/// The opening of a hash made at the service's work factor.
pub proof fn lemma_service_prefix()
    ensures
        bcrypt_prefix(HASH_COST as nat) == seq!['$', '2', 'b', '$', '1', '0', '$'],
{
    reveal_with_fuel(decimal, 2);
    assert(decimal(10) == seq!['1', '0']);
    assert(bcrypt_prefix(10) =~= seq!['$', '2', 'b', '$', '1', '0', '$']);
}

/// Hashes `password` with bcrypt at the service's work factor (`HASH_COST`,
/// ten). A new hash opens with `$2b$10$`.
pub fn hash_password(password: String) -> (h: PasswordHash)
    ensures
        h.password() == password@,
        h.reported() matches HashResult::Hashed(x) ==> fresh_hash(password@, x@),
        h.reported() matches HashResult::Hashed(x) ==> x@.take(7) == seq![
            '$',
            '2',
            'b',
            '$',
            '1',
            '0',
            '$',
        ],
        !(h.reported() is TaskFailed),
{
    proof {
        lemma_service_prefix();
    }
    let result = match bcrypt_hash(password.as_str(), HASH_COST) {
        Some(h) => HashResult::Hashed(h),
        None => HashResult::Failed,
    };
    PasswordHash { password, result }
}

} // verus!
