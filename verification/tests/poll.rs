use vibe_kanban::poll::{grant_from_json, poll, GrantOutcome, AUTHORIZATION_PENDING, EMPTY_RESPONSE};
use vibe_kanban::provider::{token_request, HttpMethod, ProviderReply};

fn reply_with(body: &str) -> ProviderReply {
    ProviderReply::Answered { status: 200, body: body.as_bytes().to_vec() }
}

fn parsed(text: &str) -> serde_json::Value {
    serde_json::from_str(text).unwrap()
}

#[test]
fn poll_surfaces_authorization_pending_as_a_denial() {
    assert_eq!(
        poll(&reply_with(r#"{"error":"authorization_pending"}"#)),
        GrantOutcome::Denied { reason: "authorization_pending".to_string() }
    );
}

#[test]
fn poll_grants_the_token() {
    assert_eq!(
        poll(&reply_with(r#"{"access_token":"tok_abc"}"#)),
        GrantOutcome::Granted { access_token: "tok_abc".to_string() }
    );
}

#[test]
fn poll_grants_with_the_usual_extra_fields() {
    assert_eq!(
        poll(&reply_with(r#"{"access_token":"t","token_type":"bearer","scope":"repo,user:email"}"#)),
        GrantOutcome::Granted { access_token: "t".to_string() }
    );
}

#[test]
fn poll_denies_with_the_providers_reason() {
    for reason in ["access_denied", "expired_token", "slow_down", ""] {
        let body = format!(r#"{{"error":"{reason}","error_description":"x"}}"#);
        assert_eq!(poll(&reply_with(&body)), GrantOutcome::Denied { reason: reason.to_string() });
    }
}

#[test]
fn poll_lets_an_error_win_over_a_token() {
    assert_eq!(
        poll(&reply_with(r#"{"access_token":"t","error":"access_denied"}"#)),
        GrantOutcome::Denied { reason: "access_denied".to_string() }
    );
}

#[test]
fn poll_denies_an_empty_response() {
    let outcome = poll(&reply_with("{}"));
    assert_eq!(outcome, GrantOutcome::Denied { reason: "empty response".to_string() });
    assert_eq!(EMPTY_RESPONSE, "empty response");
}

#[test]
fn poll_denies_documents_that_are_no_object() {
    for body in ["null", "[]", "\"access_token\"", "7"] {
        assert_eq!(
            poll(&reply_with(body)),
            GrantOutcome::Denied { reason: "empty response".to_string() },
            "{body}"
        );
    }
}

#[test]
fn poll_does_not_grant_a_token_that_is_no_string() {
    assert_eq!(
        poll(&reply_with(r#"{"access_token":12345}"#)),
        GrantOutcome::Denied { reason: "empty response".to_string() }
    );
}

#[test]
fn poll_denies_on_an_error_that_is_no_string() {
    assert_eq!(
        poll(&reply_with(r#"{"error":5}"#)),
        GrantOutcome::Denied { reason: "5".to_string() }
    );
    assert_eq!(
        poll(&reply_with(r#"{"error":{"code":1,"b":"x"}}"#)),
        GrantOutcome::Denied { reason: r#"{"b":"x","code":1}"#.to_string() }
    );
    assert_eq!(
        poll(&reply_with(r#"{"error":["a",true]}"#)),
        GrantOutcome::Denied { reason: r#"["a",true]"#.to_string() }
    );
}

#[test]
fn poll_never_grants_beside_an_error_of_any_type() {
    assert_eq!(
        poll(&reply_with(r#"{"error":null,"access_token":"t"}"#)),
        GrantOutcome::Denied { reason: "null".to_string() }
    );
    assert_eq!(
        poll(&reply_with(r#"{"access_token":"t","error":false}"#)),
        GrantOutcome::Denied { reason: "false".to_string() }
    );
    assert_eq!(
        poll(&reply_with(r#"{"access_token":"t","error":0}"#)),
        GrantOutcome::Denied { reason: "0".to_string() }
    );
}

#[test]
fn poll_reports_a_body_that_could_not_be_read() {
    let reply = ProviderReply::Unreadable { status: 200, cause: "connection reset".to_string() };
    assert_eq!(
        poll(&reply),
        GrantOutcome::TransportError {
            message: "Failed to parse GitHub response: connection reset".to_string()
        }
    );
}

#[test]
fn poll_reports_an_unreachable_provider() {
    assert_eq!(
        poll(&ProviderReply::Unreachable { cause: "timed out".to_string() }),
        GrantOutcome::TransportError { message: "Failed to contact GitHub: timed out".to_string() }
    );
}

#[test]
fn poll_reports_a_body_that_is_not_json() {
    assert_eq!(
        poll(&reply_with("{\"access_token\":")),
        GrantOutcome::TransportError {
            message: "Failed to parse GitHub response: EOF while parsing a value at line 1 column 16"
                .to_string()
        }
    );
}

#[test]
fn poll_ignores_the_status() {
    let reply = ProviderReply::Answered { status: 400, body: br#"{"access_token":"t"}"#.to_vec() };
    assert_eq!(poll(&reply), GrantOutcome::Granted { access_token: "t".to_string() });
}

#[test]
fn poll_never_answers_pending_itself() {
    for body in [
        r#"{"error":"authorization_pending"}"#,
        r#"{"access_token":"t"}"#,
        "{}",
        "oops",
    ] {
        assert_ne!(poll(&reply_with(body)), GrantOutcome::Pending);
    }
    assert_ne!(
        poll(&ProviderReply::Unreachable { cause: String::new() }),
        GrantOutcome::Pending
    );
}

#[test]
fn grant_from_json_reads_a_parsed_document() {
    assert_eq!(
        grant_from_json(&parsed(r#"{"error":"authorization_pending"}"#)),
        GrantOutcome::Denied { reason: "authorization_pending".to_string() }
    );
    assert_eq!(
        grant_from_json(&parsed(r#"{"access_token":"tok_abc"}"#)),
        GrantOutcome::Granted { access_token: "tok_abc".to_string() }
    );
    assert_eq!(
        grant_from_json(&parsed(r#"{"token":"tok_abc"}"#)),
        GrantOutcome::Denied { reason: "empty response".to_string() }
    );
    assert_eq!(
        grant_from_json(&parsed(r#"{"error":1.5,"access_token":"tok_abc"}"#)),
        GrantOutcome::Denied { reason: "1.5".to_string() }
    );
}

#[test]
fn failure_is_what_a_refused_poll_reports() {
    assert_eq!(GrantOutcome::Granted { access_token: "t".to_string() }.failure(), None);
    assert_eq!(
        GrantOutcome::Denied { reason: "access_denied".to_string() }.failure(),
        Some("access_denied".to_string())
    );
    assert_eq!(
        GrantOutcome::TransportError { message: "m".to_string() }.failure(),
        Some("m".to_string())
    );
    assert_eq!(GrantOutcome::Pending.failure(), Some("authorization_pending".to_string()));
    assert_eq!(AUTHORIZATION_PENDING, "authorization_pending");
}

#[test]
fn token_request_is_the_fixed_form() {
    let request = token_request("abc", "D1");
    assert_eq!(request.method, HttpMethod::Post);
    assert_eq!(request.url, "https://github.com/login/oauth/access_token");
    assert_eq!(request.headers, vec![("Accept".to_string(), "application/json".to_string())]);
    assert_eq!(
        request.form,
        vec![
            ("client_id".to_string(), "abc".to_string()),
            ("device_code".to_string(), "D1".to_string()),
            (
                "grant_type".to_string(),
                "urn:ietf:params:oauth:grant-type:device_code".to_string()
            ),
        ]
    );
    assert_eq!(request.bearer, None);
}
