use vibe_kanban::check::{check, check_reply, CheckStep, TokenStatus, TOKEN_INVALID};
use vibe_kanban::provider::{profile_request, HttpMethod, ProviderReply};

fn status(code: u16) -> ProviderReply {
    ProviderReply::Answered { status: code, body: Vec::new() }
}

#[test]
fn check_without_a_token_is_invalid_and_asks_nothing() {
    assert_eq!(check(None), CheckStep::Settled { status: TokenStatus::Invalid });
}

#[test]
fn check_with_a_token_probes_the_profile_with_that_token() {
    match check(Some("tok_abc")) {
        CheckStep::Probe { request } => {
            assert_eq!(request, profile_request("tok_abc"));
            assert_eq!(request.method, HttpMethod::Get);
            assert_eq!(request.url, "https://api.github.com/user");
            assert_eq!(request.bearer, Some("tok_abc".to_string()));
            assert_eq!(
                request.headers,
                vec![("User-Agent".to_string(), "vibe-kanban-app".to_string())]
            );
        }
        CheckStep::Settled { .. } => panic!("a stored token has to be probed"),
    }
}

#[test]
fn check_probes_even_an_empty_token() {
    assert!(matches!(check(Some("")), CheckStep::Probe { .. }));
}

#[test]
fn a_status_of_success_makes_the_token_valid() {
    for code in [200, 201, 204, 299] {
        assert_eq!(check_reply(&status(code)), TokenStatus::Valid, "{code}");
    }
}

#[test]
fn any_other_status_makes_the_token_invalid() {
    for code in [0, 100, 199, 300, 301, 304, 401, 403, 404, 500, 503, u16::MAX] {
        assert_eq!(check_reply(&status(code)), TokenStatus::Invalid, "{code}");
    }
}

#[test]
fn an_unreachable_provider_makes_the_token_invalid() {
    let reply = ProviderReply::Unreachable { cause: "dns".to_string() };
    assert_eq!(check_reply(&reply), TokenStatus::Invalid);
}

#[test]
fn the_body_plays_no_part_in_a_check() {
    let reply = ProviderReply::Answered { status: 200, body: b"not json at all".to_vec() };
    assert_eq!(check_reply(&reply), TokenStatus::Valid);
    let reply = ProviderReply::Answered { status: 401, body: br#"{"login":"alice"}"#.to_vec() };
    assert_eq!(check_reply(&reply), TokenStatus::Invalid);
}

#[test]
fn an_invalid_token_has_one_fixed_reason() {
    assert_eq!(TokenStatus::Invalid.failure(), Some("github_token_invalid".to_string()));
    assert_eq!(TokenStatus::Valid.failure(), None);
    assert_eq!(TOKEN_INVALID, "github_token_invalid");
}

#[test]
fn a_response_counts_by_its_status_even_if_its_body_was_lost() {
    let reply = ProviderReply::Unreadable { status: 200, cause: "reset".to_string() };
    assert_eq!(check_reply(&reply), TokenStatus::Valid);
    let reply = ProviderReply::Unreadable { status: 401, cause: "reset".to_string() };
    assert_eq!(check_reply(&reply), TokenStatus::Invalid);
}
