use chat_gateway::auth::{auth_reply, authenticate, AuthOutcome};
use chat_gateway::credential::verify_credential;
use chat_gateway::json::json_quote;
use chat_gateway::proxy::{
    build_chat_body, chat_conclude, chat_request, classify_upstream, ChatAction, UpstreamOutcome,
};
use chat_gateway::token::{issue_token, verify_token, TokenError, LEEWAY_SECS, TOKEN_LIFETIME_SECS};
use chat_gateway::Config;

const COST: u32 = 4;

fn test_config(password: &str, secret: &[u8]) -> Config {
    Config {
        reference_hash: bcrypt::hash(password, COST).unwrap(),
        signing_secret: secret.to_vec(),
        api_key: String::from("upstream-api-key"),
    }
}

#[test]
fn json_quote_plain() {
    assert_eq!(json_quote("hi"), "\"hi\"");
    assert_eq!(json_quote(""), "\"\"");
}

#[test]
fn json_quote_escapes() {
    assert_eq!(json_quote("a\"b"), "\"a\\\"b\"");
    assert_eq!(json_quote("a\\b"), "\"a\\\\b\"");
    assert_eq!(json_quote("a\nb\tc\rd"), "\"a\\nb\\tc\\rd\"");
    assert_eq!(json_quote("\u{8}\u{c}"), "\"\\b\\f\"");
    assert_eq!(json_quote("\u{1}\u{1f}"), "\"\\u0001\\u001f\"");
    assert_eq!(json_quote("héllo"), "\"héllo\"");
}

#[test]
fn chat_body_schema() {
    assert_eq!(
        build_chat_body("hi"),
        "{\"model\":\"gpt-3.5-turbo\",\"messages\":[{\"role\":\"user\",\"content\":\"hi\"}],\"max_tokens\":50}"
    );
}

#[test]
fn chat_body_escapes_message() {
    assert_eq!(
        build_chat_body("say \"hi\"\n"),
        "{\"model\":\"gpt-3.5-turbo\",\"messages\":[{\"role\":\"user\",\"content\":\"say \\\"hi\\\"\\n\"}],\"max_tokens\":50}"
    );
}

#[test]
fn credential_accepts_the_password() {
    let hash = bcrypt::hash("correct-secret", COST).unwrap();
    assert_eq!(verify_credential("correct-secret", &hash).unwrap(), true);
}

#[test]
fn credential_rejects_other_passwords() {
    let hash = bcrypt::hash("correct-secret", COST).unwrap();
    assert_eq!(verify_credential("wrong", &hash).unwrap(), false);
    assert_eq!(verify_credential("", &hash).unwrap(), false);
}

#[test]
fn credential_reports_malformed_reference() {
    assert!(verify_credential("anything", "not-a-bcrypt-hash").is_err());
    assert!(verify_credential("anything", "").is_err());
}

#[test]
fn issued_token_verifies_with_its_claims() {
    let secret = b"signing-secret";
    let now: u64 = 1_700_000_000;
    let token = issue_token(secret, "user", now).unwrap();
    let claims = verify_token(secret, &token, now).unwrap();
    assert_eq!(claims.sub, "user");
    assert_eq!(claims.exp, now + TOKEN_LIFETIME_SECS);
}

#[test]
fn token_honored_through_window_and_expired_after() {
    let secret = b"signing-secret";
    let now: u64 = 1_700_000_000;
    let exp = now + TOKEN_LIFETIME_SECS;
    let token = issue_token(secret, "user", now).unwrap();
    assert!(verify_token(secret, &token, exp).is_ok());
    assert!(verify_token(secret, &token, exp + LEEWAY_SECS).is_ok());
    assert_eq!(
        verify_token(secret, &token, exp + LEEWAY_SECS + 1).unwrap_err(),
        TokenError::Expired
    );
}

#[test]
fn token_under_other_secret_is_bad_signature() {
    let now: u64 = 1_700_000_000;
    let token = issue_token(b"secret-one", "user", now).unwrap();
    assert_eq!(
        verify_token(b"secret-two", &token, now).unwrap_err(),
        TokenError::BadSignature
    );
}

#[test]
fn garbage_token_is_malformed() {
    let secret = b"signing-secret";
    let now: u64 = 1_700_000_000;
    assert_eq!(verify_token(secret, "garbage", now).unwrap_err(), TokenError::Malformed);
    assert_eq!(verify_token(secret, "", now).unwrap_err(), TokenError::Malformed);
    assert_eq!(verify_token(secret, "a.b.c", now).unwrap_err(), TokenError::Malformed);
}

#[test]
fn signed_token_without_subject_is_malformed() {
    // A token with a valid signature but no "sub" claim is not a session token.
    let secret = b"signing-secret";
    let mut claims = serde_json::Map::new();
    claims.insert(String::from("exp"), serde_json::Value::from(1_700_003_600u64));
    let token = jsonwebtoken::encode(
        &jsonwebtoken::Header::default(),
        &serde_json::Value::Object(claims),
        &jsonwebtoken::EncodingKey::from_secret(b"signing-secret"),
    )
    .unwrap();
    assert_eq!(verify_token(secret, &token, 1_700_000_000).unwrap_err(), TokenError::Malformed);
}

#[test]
fn repeated_verification_yields_the_same_claims() {
    let secret = b"signing-secret";
    let now: u64 = 1_700_000_000;
    let token = issue_token(secret, "user", now).unwrap();
    let first = verify_token(secret, &token, now).unwrap();
    let second = verify_token(secret, &token, now).unwrap();
    assert_eq!(first.sub, second.sub);
    assert_eq!(first.exp, second.exp);
}

#[test]
fn authenticate_grants_on_the_correct_password() {
    let cfg = test_config("correct-secret", b"signing-secret");
    let now: u64 = 1_700_000_000;
    match authenticate(&cfg, "correct-secret", now) {
        AuthOutcome::Granted(token) => {
            let claims = verify_token(b"signing-secret", &token, now).unwrap();
            assert_eq!(claims.sub, "user");
            assert_eq!(claims.exp, now + TOKEN_LIFETIME_SECS);
        }
        other => panic!("expected a token, got {:?}", reply_status(other)),
    }
}

#[test]
fn authenticate_denies_wrong_and_empty_passwords() {
    let cfg = test_config("correct-secret", b"signing-secret");
    let now: u64 = 1_700_000_000;
    assert!(matches!(authenticate(&cfg, "wrong", now), AuthOutcome::Denied));
    assert!(matches!(authenticate(&cfg, "", now), AuthOutcome::Denied));
}

#[test]
fn authenticate_faults_on_malformed_reference_hash() {
    let cfg = Config {
        reference_hash: String::from("not-a-bcrypt-hash"),
        signing_secret: b"signing-secret".to_vec(),
        api_key: String::from("upstream-api-key"),
    };
    assert!(matches!(authenticate(&cfg, "anything", 1_700_000_000), AuthOutcome::Fault));
}

fn reply_status(outcome: AuthOutcome) -> u16 {
    auth_reply(outcome).status
}

#[test]
fn auth_replies_match_the_contract() {
    let cfg = test_config("correct-secret", b"signing-secret");
    let now: u64 = 1_700_000_000;

    let granted = authenticate(&cfg, "correct-secret", now);
    let token = match &granted {
        AuthOutcome::Granted(t) => t.clone(),
        _ => panic!("expected a token"),
    };
    let ok = auth_reply(granted);
    assert_eq!(ok.status, 200);
    assert_eq!(ok.body, format!("\"{}\"", token));

    let denied = auth_reply(authenticate(&cfg, "wrong", now));
    assert_eq!(denied.status, 401);
    assert_eq!(denied.body, "Invalid password");

    let fault = auth_reply(AuthOutcome::Fault);
    assert_eq!(fault.status, 500);
    assert_eq!(fault.body, "Server error");
}

#[test]
fn chat_scenario_with_stubbed_upstream() {
    let cfg = test_config("correct-secret", b"signing-secret");
    let now: u64 = 1_700_000_000;
    let token = match authenticate(&cfg, "correct-secret", now) {
        AuthOutcome::Granted(t) => t,
        _ => panic!("expected a token"),
    };

    let mut upstream_calls: u32 = 0;

    let action = chat_request(&cfg, "hi", &token, now);
    let reply = match action {
        ChatAction::Call(call) => {
            upstream_calls += 1;
            assert_eq!(call.auth_header, "Bearer upstream-api-key");
            assert_eq!(
                call.body,
                "{\"model\":\"gpt-3.5-turbo\",\"messages\":[{\"role\":\"user\",\"content\":\"hi\"}],\"max_tokens\":50}"
            );
            chat_conclude(UpstreamOutcome::Success(String::from("{\"choices\":[]}")))
        }
        ChatAction::Deny(reply) => reply,
    };
    assert_eq!(upstream_calls, 1);
    assert_eq!(reply.status, 200);
    assert_eq!(reply.body, "{\"choices\":[]}");

    let denied = match chat_request(&cfg, "hi", "garbage", now) {
        ChatAction::Call(_) => panic!("an invalid token must not reach upstream"),
        ChatAction::Deny(reply) => reply,
    };
    assert_eq!(denied.status, 401);
    assert_eq!(denied.body, "Invalid token");
}

#[test]
fn expired_token_is_denied_before_upstream() {
    let cfg = test_config("correct-secret", b"signing-secret");
    let now: u64 = 1_700_000_000;
    let token = match authenticate(&cfg, "correct-secret", now) {
        AuthOutcome::Granted(t) => t,
        _ => panic!("expected a token"),
    };
    let late = now + TOKEN_LIFETIME_SECS + LEEWAY_SECS + 1;
    assert!(matches!(chat_request(&cfg, "hi", &token, late), ChatAction::Deny(_)));
}

#[test]
fn upstream_failure_is_a_generic_fault() {
    let reply = chat_conclude(UpstreamOutcome::Failure);
    assert_eq!(reply.status, 500);
    assert_eq!(reply.body, "Error calling OpenAI API");
}

#[test]
fn upstream_status_sorts_success_from_failure() {
    let ok = chat_conclude(classify_upstream(200, String::from("{\"choices\":[]}")));
    assert_eq!(ok.status, 200);
    assert_eq!(ok.body, "{\"choices\":[]}");
    assert!(matches!(classify_upstream(299, String::from("x")), UpstreamOutcome::Success(_)));
    for status in [300u16, 401, 404, 429, 500] {
        let reply = chat_conclude(classify_upstream(status, String::from("{\"error\":\"u\"}")));
        assert_eq!(reply.status, 500);
        assert_eq!(reply.body, "Error calling OpenAI API");
    }
}

#[test]
fn authentication_is_deterministic_for_equal_inputs() {
    let cfg = test_config("correct-secret", b"signing-secret");
    let now: u64 = 1_700_000_000;
    let first = match authenticate(&cfg, "correct-secret", now) {
        AuthOutcome::Granted(t) => t,
        _ => panic!("a matching password must be granted a token"),
    };
    let second = match authenticate(&cfg, "correct-secret", now) {
        AuthOutcome::Granted(t) => t,
        _ => panic!("a matching password must be granted a token"),
    };
    let c1 = verify_token(b"signing-secret", &first, now).unwrap();
    let c2 = verify_token(b"signing-secret", &second, now).unwrap();
    assert_eq!(c1.sub, c2.sub);
    assert_eq!(c1.exp, c2.exp);
}
