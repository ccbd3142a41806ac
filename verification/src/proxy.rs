//! The proxied chat call: token check, upstream request, relayed reply.
use vstd::prelude::*;
use vstd::string::StringExecFns;
use crate::json::{json_quote, quoted};
use crate::token::{jwt_accepts, verify_token, LEEWAY_SECS};
use crate::{Config, HttpReply};

verus! {

/// An upstream request, ready to send: the authorization header carrying
/// the server-held credential, and the JSON body.
pub struct UpstreamCall {
    pub auth_header: String,
    pub body: String,
}

/// What to do with a chat request: refuse it outright, or place this one
/// upstream call. A denial carries its HTTP reply, so no upstream request
/// value ever exists for an unauthorized attempt.
pub enum ChatAction {
    Deny(HttpReply),
    Call(UpstreamCall),
}

/// How the upstream call went: the body of a 2xx upstream response, or a
/// failure — a transport error, or any non-2xx status.
pub enum UpstreamOutcome {
    Success(String),
    Failure,
}

/// Sorts a finished upstream exchange by its status code: only a 2xx reply
/// counts as success, and its body is kept whole; every other status is a
/// failure to be masked, body discarded.
pub fn classify_upstream(status: u16, body: String) -> (r: UpstreamOutcome)
    ensures
        r is Success <==> 200 <= status < 300,
        r matches UpstreamOutcome::Success(b) ==> b@ == body@,
{
    if 200 <= status && status < 300 {
        UpstreamOutcome::Success(body)
    } else {
        UpstreamOutcome::Failure
    }
}

/// The upstream request body: the fixed schema around the client's message,
/// with the server-side model identifier and output length bound.
pub open spec fn chat_body(msg: Seq<char>) -> Seq<char> {
    "{\"model\":\"gpt-3.5-turbo\",\"messages\":[{\"role\":\"user\",\"content\":"@ + quoted(msg)
        + "}],\"max_tokens\":50}"@
}

/// Builds the upstream request body around `message`.
pub fn build_chat_body(message: &str) -> (r: String)
    ensures
        r@ == chat_body(message@),
{
    let mut out = String::from_str(
        "{\"model\":\"gpt-3.5-turbo\",\"messages\":[{\"role\":\"user\",\"content\":",
    );
    let q = json_quote(message);
    out.append(q.as_str());
    out.append("}],\"max_tokens\":50}");
    out
}

/// Decides a chat request: the upstream call is prepared exactly when the
/// token verifies as unexpired under the gateway's secret, and otherwise
/// the request is denied before any upstream value exists, whatever the
/// token failed on.
pub fn chat_request(cfg: &Config, message: &str, token: &str, now: u64) -> (r: ChatAction)
    ensures
        r is Call <==> exists|s: Seq<char>, e: u64|
            jwt_accepts(cfg.signing_secret@, token@, s, e) && now <= e + LEEWAY_SECS,
        r matches ChatAction::Call(u) ==> u.auth_header@ == "Bearer "@ + cfg.api_key@ && u.body@
            == chat_body(message@),
        r matches ChatAction::Deny(rep) ==> rep.status == 401 && rep.body@ == "Invalid token"@,
{
    match verify_token(cfg.signing_secret.as_slice(), token, now) {
        Ok(c) => {
            proof {
                assert(jwt_accepts(cfg.signing_secret@, token@, c.sub@, c.exp) && now <= c.exp
                    + LEEWAY_SECS);
            }
            let mut h = String::from_str("Bearer ");
            h.append(cfg.api_key.as_str());
            let b = build_chat_body(message);
            ChatAction::Call(UpstreamCall { auth_header: h, body: b })
        },
        Err(_) => {
            proof {
                if exists|s: Seq<char>, e: u64|
                    jwt_accepts(cfg.signing_secret@, token@, s, e) && now <= e + LEEWAY_SECS {
                    let (s, e) = choose|s: Seq<char>, e: u64|
                        jwt_accepts(cfg.signing_secret@, token@, s, e) && now <= e + LEEWAY_SECS;
                    assert(false);
                }
            }
            ChatAction::Deny(HttpReply { status: 401, body: String::from_str("Invalid token") })
        },
    }
}

/// The HTTP reply for a finished upstream call: the upstream body relayed
/// verbatim with status 200, or a generic failure with 500 that leaks
/// neither the credential nor transport detail.
pub fn chat_conclude(outcome: UpstreamOutcome) -> (r: HttpReply)
    ensures
        outcome matches UpstreamOutcome::Success(b) ==> r.status == 200 && r.body@ == b@,
        outcome is Failure ==> r.status == 500 && r.body@ == "Error calling OpenAI API"@,
{
    match outcome {
        UpstreamOutcome::Success(b) => HttpReply { status: 200, body: b },
        UpstreamOutcome::Failure => HttpReply {
            status: 500,
            body: String::from_str("Error calling OpenAI API"),
        },
    }
}

} // verus!
