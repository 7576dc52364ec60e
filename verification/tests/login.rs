use vibe_kanban::identity::Identity;
use vibe_kanban::login::{advance, begin, LoginState, LoginStep};
use vibe_kanban::poll::GrantOutcome;
use vibe_kanban::provider::{emails_request, profile_request, token_request, ProviderReply};

fn body(text: &str) -> ProviderReply {
    ProviderReply::Answered { status: 200, body: text.as_bytes().to_vec() }
}

fn lost() -> ProviderReply {
    ProviderReply::Unreachable { cause: "reset".to_string() }
}

#[test]
fn a_login_begins_with_the_exchange() {
    assert_eq!(
        begin("abc", "D1"),
        LoginStep::Send { state: LoginState::Exchanging, request: token_request("abc", "D1") }
    );
}

#[test]
fn a_granted_login_runs_through_both_reads() {
    let step = advance(LoginState::Exchanging, &body(r#"{"access_token":"tok_abc"}"#));
    assert_eq!(
        step,
        LoginStep::Send {
            state: LoginState::ReadingProfile { access_token: "tok_abc".to_string() },
            request: profile_request("tok_abc"),
        }
    );
    let LoginStep::Send { state, .. } = step else { panic!("the login goes on") };

    let step = advance(state, &body(r#"{"login":"alice"}"#));
    assert_eq!(
        step,
        LoginStep::Send {
            state: LoginState::ReadingEmails {
                access_token: "tok_abc".to_string(),
                username: Some("alice".to_string()),
            },
            request: emails_request("tok_abc"),
        }
    );
    let LoginStep::Send { state, .. } = step else { panic!("the login goes on") };

    let step = advance(state, &body(r#"[{"email":"a@x.com","primary":true}]"#));
    assert_eq!(
        step,
        LoginStep::Resolved {
            access_token: "tok_abc".to_string(),
            identity: Identity {
                username: Some("alice".to_string()),
                primary_email: Some("a@x.com".to_string()),
            },
        }
    );
}

#[test]
fn a_pending_approval_ends_the_login_with_the_providers_code() {
    let step = advance(LoginState::Exchanging, &body(r#"{"error":"authorization_pending"}"#));
    assert_eq!(
        step,
        LoginStep::Refused {
            outcome: GrantOutcome::Denied { reason: "authorization_pending".to_string() },
            answer: "authorization_pending".to_string(),
        }
    );
}

#[test]
fn an_empty_response_ends_the_login() {
    assert_eq!(
        advance(LoginState::Exchanging, &body("{}")),
        LoginStep::Refused {
            outcome: GrantOutcome::Denied { reason: "empty response".to_string() },
            answer: "No access token yet".to_string(),
        }
    );
}

#[test]
fn only_a_document_without_error_and_token_is_answered_with_the_fixed_words() {
    assert_eq!(
        advance(LoginState::Exchanging, &body(r#"{"error":"empty response"}"#)),
        LoginStep::Refused {
            outcome: GrantOutcome::Denied { reason: "empty response".to_string() },
            answer: "empty response".to_string(),
        }
    );
    assert_eq!(
        advance(LoginState::Exchanging, &body(r#"{"access_token":7}"#)),
        LoginStep::Refused {
            outcome: GrantOutcome::Denied { reason: "empty response".to_string() },
            answer: "No access token yet".to_string(),
        }
    );
}

#[test]
fn an_error_of_any_type_ends_the_login() {
    assert_eq!(
        advance(LoginState::Exchanging, &body(r#"{"error":404,"access_token":"t"}"#)),
        LoginStep::Refused {
            outcome: GrantOutcome::Denied { reason: "404".to_string() },
            answer: "404".to_string(),
        }
    );
}

#[test]
fn an_unreadable_exchange_ends_the_login() {
    let reply = ProviderReply::Unreadable { status: 200, cause: "reset".to_string() };
    assert_eq!(
        advance(LoginState::Exchanging, &reply),
        LoginStep::Refused {
            outcome: GrantOutcome::TransportError {
                message: "Failed to parse GitHub response: reset".to_string()
            },
            answer: "Failed to parse GitHub response: reset".to_string(),
        }
    );
}

#[test]
fn a_lost_exchange_ends_the_login() {
    assert_eq!(
        advance(LoginState::Exchanging, &lost()),
        LoginStep::Refused {
            outcome: GrantOutcome::TransportError {
                message: "Failed to contact GitHub: reset".to_string()
            },
            answer: "Failed to contact GitHub: reset".to_string(),
        }
    );
}

#[test]
fn a_lost_profile_read_does_not_end_the_login() {
    let state = LoginState::ReadingProfile { access_token: "t".to_string() };
    assert_eq!(
        advance(state, &lost()),
        LoginStep::Send {
            state: LoginState::ReadingEmails { access_token: "t".to_string(), username: None },
            request: emails_request("t"),
        }
    );
}

#[test]
fn a_lost_email_read_does_not_end_the_login() {
    let state = LoginState::ReadingEmails {
        access_token: "t".to_string(),
        username: Some("alice".to_string()),
    };
    assert_eq!(
        advance(state, &body("<html>")),
        LoginStep::Resolved {
            access_token: "t".to_string(),
            identity: Identity { username: Some("alice".to_string()), primary_email: None },
        }
    );
}

#[test]
fn a_login_is_over_after_three_replies() {
    let mut step = begin("abc", "D1");
    let replies = [
        body(r#"{"access_token":"t"}"#),
        body(r#"{"message":"Bad credentials"}"#),
        body(r#"{"message":"Bad credentials"}"#),
    ];
    let mut used = 0;
    while let LoginStep::Send { state, .. } = step {
        step = advance(state, &replies[used]);
        used += 1;
    }
    assert_eq!(used, 3);
    assert_eq!(
        step,
        LoginStep::Resolved {
            access_token: "t".to_string(),
            identity: Identity { username: None, primary_email: None },
        }
    );
}
