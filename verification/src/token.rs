//! Session tokens: issuing and verifying compact signed, time-bounded tokens.
use vstd::prelude::*;
use std::collections::HashSet;
use jsonwebtoken::{decode, encode, Algorithm, DecodingKey, EncodingKey, Header, Validation};
use jsonwebtoken::errors::ErrorKind;

verus! {

/// Seconds from issuance to expiry: every token lives exactly one hour.
pub const TOKEN_LIFETIME_SECS: u64 = 3600;

/// Clock-skew allowance, in seconds, granted on the expiry check only.
pub const LEEWAY_SECS: u64 = 60;

/// The claims carried by a session token.
#[derive(Debug)]
pub struct Claims {
    /// Subject identifier; this single-tenant gateway always issues "user".
    pub sub: String,
    /// Expiration timestamp, in epoch seconds.
    pub exp: u64,
}

/// Why a presented token was rejected.
#[derive(Debug, Clone, Copy, PartialEq, Eq, Structural)]
pub enum TokenError {
    /// The signature does not match the verifying secret.
    BadSignature,
    /// The signature matches but the expiry, plus leeway, lies in the past.
    Expired,
    /// The string cannot be read as a token with the expected claims.
    Malformed,
}

/// Whether `token` parses far enough for jsonwebtoken's decoder to reach the
/// signature check: three dot-separated parts, whose first is a base64 JSON
/// header naming the HS256 algorithm.
pub uninterp spec fn jwt_structured(token: Seq<char>) -> bool;

/// Whether jsonwebtoken's HS256 decoder, keyed with `secret`, accepts
/// `token` and finds in its claims the string subject `sub` and the integer
/// expiry `exp`. The decoder re-derives the signature from `secret` and the
/// token text alone, so this is a function of its arguments.
pub uninterp spec fn jwt_accepts(secret: Seq<u8>, token: Seq<char>, sub: Seq<char>, exp: u64) -> bool;

/// Whether the signature part of the structured `token` re-derives, by HS256
/// keyed with `secret`, from the token's own header-and-claims text. Like
/// `jwt_accepts` this is a function of `secret` and `token` alone; nothing is
/// said of strings that are not structured.
pub uninterp spec fn jwt_signed(secret: Seq<u8>, token: Seq<char>) -> bool;

enum DecodeFailure {
    BadSignature,
    Malformed,
}

/// Relies on jsonwebtoken::encode with the default header: it signs the
/// claims `{sub, exp}` with HS256 over `secret`, and the token it returns
/// decodes, under the same secret, to exactly those claims. For HS256 the
/// encoder cannot fail: the key-family check passes by construction, a
/// string-keyed claims map serializes infallibly, and the HMAC signer's
/// constructor and signing call have no error path, so a token always comes
/// back.
#[verifier::external_body]
fn encode_claims(secret: &[u8], sub: &str, exp: u64) -> (r: Option<String>)
    ensures
        r is Some,
        r matches Some(t) ==> jwt_accepts(secret@, t@, sub@, exp) && jwt_structured(t@)
            && jwt_signed(secret@, t@),
{
    let mut claims = serde_json::Map::new();
    claims.insert("sub".to_owned(), serde_json::Value::String(sub.to_owned()));
    claims.insert("exp".to_owned(), serde_json::Value::from(exp));
    let key = EncodingKey::from_secret(secret);
    encode(&Header::default(), &serde_json::Value::Object(claims), &key).ok()
}

/// Relies on jsonwebtoken::decode over HS256, with expiry validation turned
/// off so that the outcome depends on `secret` and `token` alone. The claims
/// come back as found; `InvalidSignature` is the one error the decoder
/// reports after the token's header has parsed and named HS256, and it is
/// reported exactly when that signature check fails.
#[verifier::external_body]
fn decode_claims(secret: &[u8], token: &str) -> (r: Result<
    (Option<String>, Option<u64>),
    DecodeFailure,
>)
    ensures
        match r {
            Ok(c) => jwt_structured(token@) && jwt_signed(secret@, token@) && match (c.0, c.1) {
                (Some(s), Some(e)) => jwt_accepts(secret@, token@, s@, e) && (forall|
                    s2: Seq<char>,
                    e2: u64,
                |
                    jwt_accepts(secret@, token@, s2, e2) ==> s2 == s@ && e2 == e),
                _ => forall|s2: Seq<char>, e2: u64| !jwt_accepts(secret@, token@, s2, e2),
            },
            Err(f) => (forall|s2: Seq<char>, e2: u64| !jwt_accepts(secret@, token@, s2, e2)) && (f
                == DecodeFailure::BadSignature <==> jwt_structured(token@) && !jwt_signed(
                secret@,
                token@,
            )),
        },
{
    let mut validation = Validation::new(Algorithm::HS256);
    validation.validate_exp = false;
    validation.required_spec_claims = HashSet::new();
    match decode::<serde_json::Value>(token, &DecodingKey::from_secret(secret), &validation) {
        Ok(d) => Ok((
            d.claims.get("sub").and_then(serde_json::Value::as_str).map(str::to_owned),
            d.claims.get("exp").and_then(serde_json::Value::as_u64),
        )),
        Err(e) => match e.kind() {
            ErrorKind::InvalidSignature => Err(DecodeFailure::BadSignature),
            _ => Err(DecodeFailure::Malformed),
        },
    }
}

/// Issues a signed token for `subject` expiring one hour after `now`.
///
/// Issuance always succeeds: the HS256 signer has no failure path.
pub fn issue_token(secret: &[u8], subject: &str, now: u64) -> (r: Option<String>)
    requires
        now + TOKEN_LIFETIME_SECS <= u64::MAX,
    ensures
        r is Some,
        r matches Some(t) ==> jwt_accepts(
            secret@,
            t@,
            subject@,
            (now + TOKEN_LIFETIME_SECS) as u64,
        ) && jwt_structured(t@),
{
    encode_claims(secret, subject, now + TOKEN_LIFETIME_SECS)
}

/// Everything `verify_token` guarantees about its result, as one relation
/// over the decoder's acceptance of the token.
pub open spec fn verify_post(
    secret: Seq<u8>,
    token: Seq<char>,
    now: u64,
    r: Result<Claims, TokenError>,
) -> bool {
    &&& (r matches Ok(c) ==> jwt_accepts(secret, token, c.sub@, c.exp) && now <= c.exp
        + LEEWAY_SECS && jwt_structured(token) && jwt_signed(secret, token))
    &&& (r matches Ok(c) ==> forall|s: Seq<char>, e: u64|
        jwt_accepts(secret, token, s, e) ==> s == c.sub@ && e == c.exp)
    &&& (forall|s: Seq<char>, e: u64|
        jwt_accepts(secret, token, s, e) && now <= e + LEEWAY_SECS ==> (r matches Ok(c) && c.sub@
            == s && c.exp == e))
    &&& (forall|s: Seq<char>, e: u64|
        jwt_accepts(secret, token, s, e) && now > e + LEEWAY_SECS ==> r == Err::<
            Claims,
            TokenError,
        >(TokenError::Expired))
    &&& (r == Err::<Claims, TokenError>(TokenError::Expired) ==> exists|s: Seq<char>, e: u64|
        jwt_accepts(secret, token, s, e) && now > e + LEEWAY_SECS)
    &&& (r == Err::<Claims, TokenError>(TokenError::BadSignature) <==> jwt_structured(token)
        && !jwt_signed(secret, token))
    &&& (r == Err::<Claims, TokenError>(TokenError::BadSignature) ==> forall|s: Seq<char>, e: u64|
        !jwt_accepts(secret, token, s, e))
    &&& (r == Err::<Claims, TokenError>(TokenError::Malformed) ==> forall|s: Seq<char>, e: u64|
        !jwt_accepts(secret, token, s, e))
    &&& (!jwt_structured(token) ==> r == Err::<Claims, TokenError>(TokenError::Malformed))
}

/// Verifies `token` against `secret` at time `now`.
///
/// The token is honored exactly when the decoder accepts it under this
/// secret and `now` is at most its expiry plus the leeway; the leeway never
/// widens anything else. Errors tell tampering, lateness and unreadable
/// input apart: `BadSignature` comes exactly when the token is structured
/// but its signature does not re-derive under this secret.
pub fn verify_token(secret: &[u8], token: &str, now: u64) -> (r: Result<Claims, TokenError>)
    ensures
        verify_post(secret@, token@, now, r),
{
    match decode_claims(secret, token) {
        Ok((Some(sub), Some(exp))) => {
            let expired = if exp < u64::MAX - LEEWAY_SECS {
                now > exp + LEEWAY_SECS
            } else {
                false
            };
            if expired {
                Err(TokenError::Expired)
            } else {
                Ok(Claims { sub, exp })
            }
        },
        Ok(_) => Err(TokenError::Malformed),
        Err(DecodeFailure::BadSignature) => Err(TokenError::BadSignature),
        Err(DecodeFailure::Malformed) => Err(TokenError::Malformed),
    }
}

/// A freshly issued token verifies, and only within its window: any token
/// the signer produced for expiry `issued_at + TOKEN_LIFETIME_SECS` is
/// accepted with exactly its claims while `now` is within lifetime plus
/// leeway of issuance, and is reported `Expired` beyond that.
pub proof fn lemma_issued_token_verifies(
    secret: Seq<u8>,
    sub: Seq<char>,
    token: Seq<char>,
    issued_at: u64,
    now: u64,
    r: Result<Claims, TokenError>,
)
    requires
        issued_at + TOKEN_LIFETIME_SECS <= u64::MAX,
        jwt_accepts(secret, token, sub, (issued_at + TOKEN_LIFETIME_SECS) as u64),
        verify_post(secret, token, now, r),
    ensures
        now <= issued_at + TOKEN_LIFETIME_SECS + LEEWAY_SECS ==> (r matches Ok(c) && c.sub@ == sub
            && c.exp == issued_at + TOKEN_LIFETIME_SECS),
        now > issued_at + TOKEN_LIFETIME_SECS + LEEWAY_SECS ==> r == Err::<Claims, TokenError>(
            TokenError::Expired,
        ),
{
    let e = (issued_at + TOKEN_LIFETIME_SECS) as u64;
    assert(jwt_accepts(secret, token, sub, e));
}

/// Verifying is read-only: two verifications of the same token under the
/// same secret can only succeed with the same claims, and at one instant
/// they succeed or fail together.
pub proof fn lemma_verify_repeatable(
    secret: Seq<u8>,
    token: Seq<char>,
    now1: u64,
    now2: u64,
    r1: Result<Claims, TokenError>,
    r2: Result<Claims, TokenError>,
)
    requires
        verify_post(secret, token, now1, r1),
        verify_post(secret, token, now2, r2),
    ensures
        r1 matches Ok(c1) ==> (r2 matches Ok(c2) ==> c1.sub@ == c2.sub@ && c1.exp == c2.exp),
        now1 == now2 ==> (r1 is Ok <==> r2 is Ok),
{
    if r1 is Ok && r2 is Ok {
        let c1 = r1->Ok_0;
        let c2 = r2->Ok_0;
        assert(jwt_accepts(secret, token, c2.sub@, c2.exp));
    }
    if now1 == now2 {
        if r1 is Ok && !(r2 is Ok) {
            let c1 = r1->Ok_0;
            assert(jwt_accepts(secret, token, c1.sub@, c1.exp));
        }
        if r2 is Ok && !(r1 is Ok) {
            let c2 = r2->Ok_0;
            assert(jwt_accepts(secret, token, c2.sub@, c2.exp));
        }
    }
}

} // verus!
