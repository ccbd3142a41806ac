//! The login flow: a password in, a session token or a rejection out.
use vstd::prelude::*;
use vstd::string::StringExecFns;
use crate::credential::{bcrypt_matches, bcrypt_valid_hash, verify_credential};
use crate::json::{json_quote, quoted};
use crate::token::{issue_token, jwt_accepts, jwt_structured, TOKEN_LIFETIME_SECS};
use crate::{Config, HttpReply};

verus! {

/// What a login attempt came to.
pub enum AuthOutcome {
    /// The password matched: here is the freshly issued session token.
    Granted(String),
    /// The password did not match. No token, and no further detail.
    Denied,
    /// A server-side fault: the reference hash is malformed, or signing
    /// failed. Kept apart from `Denied`; the client learns nothing more.
    Fault,
}

/// Turns a login attempt into a token or a rejection.
///
/// The matching password is granted a token, always: issuance has no failure
/// path. A wrong password is `Denied`, never a fault; a malformed reference
/// hash is a fault, never a denial. A granted token carries the fixed
/// subject and expires one hour after `now`.
pub fn authenticate(cfg: &Config, password: &str, now: u64) -> (r: AuthOutcome)
    requires
        now + TOKEN_LIFETIME_SECS <= u64::MAX,
    ensures
        r matches AuthOutcome::Granted(t) ==> jwt_accepts(
            cfg.signing_secret@,
            t@,
            "user"@,
            (now + TOKEN_LIFETIME_SECS) as u64,
        ) && jwt_structured(t@),
        r is Granted <==> bcrypt_valid_hash(cfg.reference_hash@) && bcrypt_matches(
            password@,
            cfg.reference_hash@,
        ),
        r is Denied <==> bcrypt_valid_hash(cfg.reference_hash@) && !bcrypt_matches(
            password@,
            cfg.reference_hash@,
        ),
        r is Fault <==> !bcrypt_valid_hash(cfg.reference_hash@),
{
    match verify_credential(password, cfg.reference_hash.as_str()) {
        Err(_) => AuthOutcome::Fault,
        Ok(false) => AuthOutcome::Denied,
        Ok(true) => match issue_token(cfg.signing_secret.as_slice(), "user", now) {
            Some(t) => AuthOutcome::Granted(t),
            None => AuthOutcome::Fault,
        },
    }
}

/// The HTTP reply for a login outcome: the token as a JSON string with
/// status 200, a bare denial with 401, or a generic fault with 500.
pub fn auth_reply(outcome: AuthOutcome) -> (r: HttpReply)
    ensures
        outcome matches AuthOutcome::Granted(t) ==> r.status == 200 && r.body@ == quoted(t@),
        outcome is Denied ==> r.status == 401 && r.body@ == "Invalid password"@,
        outcome is Fault ==> r.status == 500 && r.body@ == "Server error"@,
{
    match outcome {
        AuthOutcome::Granted(t) => HttpReply { status: 200, body: json_quote(t.as_str()) },
        AuthOutcome::Denied => HttpReply {
            status: 401,
            body: String::from_str("Invalid password"),
        },
        AuthOutcome::Fault => HttpReply { status: 500, body: String::from_str("Server error") },
    }
}

} // verus!
