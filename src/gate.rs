//! The two gates in front of the workflows: the human-verification check on
//! the public intake form, and the staff session check.

use argon2::password_hash::PasswordHash;
use argon2::{Argon2, PasswordVerifier};
use vstd::prelude::*;

verus! {

/// Longest token, in characters, that is sent on to the verifier.
pub const MAX_TOKEN_CHARS: usize = 2048;

/// The name of the one staff account.
pub fn admin_username() -> (r: &'static str)
    ensures
        r@ == "admin"@,
{
    "admin"
}

/// Why a human-verification token was not accepted.
#[derive(Clone, Copy, Debug, PartialEq, Eq, Structural)]
pub enum BotFailure {
    /// Empty, or longer than the verifier takes; nothing was sent.
    MalformedToken,
    /// The verifier could not be reached or answered with a non-2xx status.
    VerifierUnavailable,
    /// The verifier answered that the token is not valid.
    VerifierRejected,
    /// The verifier accepted the token for another action.
    ActionMismatch,
    /// The verifier accepted the token for another hostname.
    HostnameMismatch,
}

impl BotFailure {
    /// The reason code reported to the caller.
    pub fn code(&self) -> (r: &'static str)
        ensures
            r@ == match *self {
                BotFailure::MalformedToken => "invalid-input-response"@,
                BotFailure::VerifierUnavailable => "internal-error"@,
                BotFailure::VerifierRejected => "verification-failed"@,
                BotFailure::ActionMismatch => "action-mismatch"@,
                BotFailure::HostnameMismatch => "hostname-mismatch"@,
            },
    {
        match self {
            BotFailure::MalformedToken => "invalid-input-response",
            BotFailure::VerifierUnavailable => "internal-error",
            BotFailure::VerifierRejected => "verification-failed",
            BotFailure::ActionMismatch => "action-mismatch",
            BotFailure::HostnameMismatch => "hostname-mismatch",
        }
    }
}

/// What the verification endpoint answered.
#[derive(Clone, Debug)]
pub struct VerifierReply {
    pub success: bool,
    pub error_codes: Vec<String>,
    pub hostname: Option<String>,
    pub action: Option<String>,
}

/// What the caller expects the verifier to report, where it cares.
#[derive(Clone, Debug)]
pub struct Expectations {
    pub action: Option<String>,
    pub hostname: Option<String>,
}

/// A token that may be sent to the verifier: non-empty and at most
/// 2048 characters.
pub open spec fn token_sendable(token: Seq<char>) -> bool {
    0 < token.len() <= MAX_TOKEN_CHARS
}

/// A reported value meets an expectation when none is set or they are equal.
pub open spec fn meets(expected: Option<String>, reported: Option<String>) -> bool {
    match expected {
        None => true,
        Some(e) => reported matches Some(r) && r@ == e@,
    }
}

/// The combined verdict on a verifier's answer (`None`: no usable answer).
pub open spec fn bot_verdict(reply: Option<VerifierReply>, expected: Expectations) -> Result<
    (),
    BotFailure,
> {
    match reply {
        None => Err(BotFailure::VerifierUnavailable),
        Some(r) => if !r.success {
            Err(BotFailure::VerifierRejected)
        } else if !meets(expected.action, r.action) {
            Err(BotFailure::ActionMismatch)
        } else if !meets(expected.hostname, r.hostname) {
            Err(BotFailure::HostnameMismatch)
        } else {
            Ok(())
        },
    }
}

/// Whether a token may be sent to the verifier at all.
pub fn is_token_sendable(token: &str) -> (r: bool)
    ensures
        r == token_sendable(token@),
{
    let n = token.unicode_len();
    0 < n && n <= MAX_TOKEN_CHARS
}

fn meets_exec(expected: &Option<String>, reported: &Option<String>) -> (r: bool)
    ensures
        r == meets(*expected, *reported),
{
    match (expected, reported) {
        (None, _) => true,
        (Some(e), Some(r)) => r.eq(e),
        (Some(_), None) => false,
    }
}

/// Combines transport success with the business rules: the verifier must
/// have accepted the token, and its reported action and hostname must match
/// what the caller expects where it expects something.
pub fn judge_reply(reply: Option<&VerifierReply>, expected: &Expectations) -> (r: Result<
    (),
    BotFailure,
>)
    ensures
        r == bot_verdict(
            match reply {
                Some(x) => Some(*x),
                None => None,
            },
            *expected,
        ),
{
    match reply {
        None => Err(BotFailure::VerifierUnavailable),
        Some(rep) => {
            if !rep.success {
                Err(BotFailure::VerifierRejected)
            } else if !meets_exec(&expected.action, &rep.action) {
                Err(BotFailure::ActionMismatch)
            } else if !meets_exec(&expected.hostname, &rep.hostname) {
                Err(BotFailure::HostnameMismatch)
            } else {
                Ok(())
            }
        },
    }
}

/// The credentials posted to the login form. Only the password is read: the
/// account is fixed.
#[derive(Clone, Debug)]
pub struct LoginInfo {
    pub username: String,
    pub password: String,
}

/// Whether the PHC-format hash `phc` parses and `password` verifies against
/// it with Argon2 (the algorithm and its parameters are read from the hash).
pub uninterp spec fn argon2_accepts(password: Seq<char>, phc: Seq<char>) -> bool;

/// Relies on argon2's `PasswordHash::new` and `PasswordVerifier::verify_password`
/// (with the default Argon2 context): a hash that does not parse, or a
/// password that does not verify, gives `false`.
#[verifier::external_body]
fn argon2_check(password: &str, phc: &str) -> (r: bool)
    ensures
        r == argon2_accepts(password@, phc@),
{
    match PasswordHash::new(phc) {
        Ok(h) => Argon2::default().verify_password(password.as_bytes(), &h).is_ok(),
        Err(_) => false,
    }
}

/// Decides a login attempt from the stored hash of the admin account (`None`
/// when it could not be read): the password must verify against that hash.
pub fn login(stored_hash: Option<&str>, password: &str) -> (ok: bool)
    ensures
        ok == (stored_hash matches Some(h) && argon2_accepts(password@, h@)),
{
    match stored_hash {
        Some(h) => argon2_check(password, h),
        None => false,
    }
}

/// Decides whether a request may pass the staff guard: the session must hold
/// at least one entry and carry the signed-in user's marker.
pub fn auth_gaurd(session_is_empty: bool, user_marker: Option<&str>) -> (pass: bool)
    ensures
        pass == (!session_is_empty && user_marker is Some),
{
    !session_is_empty && user_marker.is_some()
}

} // verus!
