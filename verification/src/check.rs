//! Checking whether a stored token is still good.
//!
//! Without a token there is nothing to ask: [`check`] settles the matter on
//! the spot. With one, it hands out the read of the profile, and
//! [`check_reply`] judges the token by the status that came back. Why a token
//! is not good is not told apart: expired, revoked and unreachable all come
//! out as invalid.

use crate::provider::{profile_request, profile_request_view, ProviderReply, ProviderRequest,
    ReplyView, RequestView};
use vstd::prelude::*;

verus! {

/// What is reported for a token that is missing or not good.
pub const TOKEN_INVALID: &'static str = "github_token_invalid";

/// Whether a stored token is still good.
#[derive(Clone, Copy, Debug, PartialEq, Eq, Structural)]
pub enum TokenStatus {
    Valid,
    Invalid,
}

impl TokenStatus {
    /// What to report: nothing for a valid token, the one fixed reason for an
    /// invalid one.
    pub fn failure(&self) -> (text: Option<String>)
        ensures
            text.deep_view() == match *self {
                TokenStatus::Valid => None,
                TokenStatus::Invalid => Some(TOKEN_INVALID@),
            },
    {
        match self {
            TokenStatus::Valid => None,
            TokenStatus::Invalid => Some(TOKEN_INVALID.to_owned()),
        }
    }
}

/// What a check asks of its caller.
#[derive(Clone, Debug, PartialEq, Eq)]
pub enum CheckStep {
    /// The answer is known without asking the provider.
    Settled { status: TokenStatus },
    /// Send this request and judge the token by the reply.
    Probe { request: ProviderRequest },
}

/// A step of a check, with its request by the text of its parts.
pub enum CheckStepView {
    Settled { status: TokenStatus },
    Probe { request: RequestView },
}

impl View for CheckStep {
    type V = CheckStepView;

    open spec fn view(&self) -> CheckStepView {
        match self {
            CheckStep::Settled { status } => CheckStepView::Settled { status: *status },
            CheckStep::Probe { request } => CheckStepView::Probe { request: request@ },
        }
    }
}

/// Whether a status is one of success, 200 to 299.
pub open spec fn is_success(status: u16) -> bool {
    200 <= status < 300
}

/// How a check begins: settled as invalid where no token is stored, else
/// with the read of the profile in the name of exactly that token.
pub open spec fn check_of(stored_token: Option<Seq<char>>) -> CheckStepView {
    match stored_token {
        None => CheckStepView::Settled { status: TokenStatus::Invalid },
        Some(token) => CheckStepView::Probe { request: profile_request_view(token) },
    }
}

/// The status of the response in a reply, where one arrived. Whether its
/// body could be read plays no part.
pub open spec fn response_status(reply: ReplyView) -> Option<u16> {
    match reply {
        ReplyView::Answered { status, .. } => Some(status),
        ReplyView::Unreadable { status, .. } => Some(status),
        ReplyView::Unreachable { .. } => None,
    }
}

/// What the reply to the probe says of the token: valid exactly when a
/// response arrived with a status of success.
pub open spec fn status_of(reply: ReplyView) -> TokenStatus {
    match response_status(reply) {
        Some(status) => if is_success(status) {
            TokenStatus::Valid
        } else {
            TokenStatus::Invalid
        },
        None => TokenStatus::Invalid,
    }
}

/// Begins a check of the stored token.
pub fn check(stored_token: Option<&str>) -> (step: CheckStep)
    ensures
        step@ == check_of(
            match stored_token {
                Some(token) => Some(token@),
                None => None,
            },
        ),
        stored_token is None ==> step@ == (CheckStepView::Settled { status: TokenStatus::Invalid }),
{
    match stored_token {
        None => CheckStep::Settled { status: TokenStatus::Invalid },
        Some(token) => CheckStep::Probe { request: profile_request(token) },
    }
}

/// Judges the token by the reply to the probe.
pub fn check_reply(reply: &ProviderReply) -> (status: TokenStatus)
    ensures
        status == status_of(reply@),
        status == TokenStatus::Valid <==> (response_status(reply@) matches Some(code) && 200
            <= code < 300),
{
    let code = match reply {
        ProviderReply::Answered { status, .. } => *status,
        ProviderReply::Unreadable { status, .. } => *status,
        ProviderReply::Unreachable { .. } => {
            return TokenStatus::Invalid;
        },
    };
    if 200 <= code && code < 300 {
        TokenStatus::Valid
    } else {
        TokenStatus::Invalid
    }
}

/// Without a stored token the check is settled as invalid and asks for no
/// request at all.
pub proof fn lemma_missing_token_is_invalid()
    ensures
        check_of(None) == (CheckStepView::Settled { status: TokenStatus::Invalid }),
        !(check_of(None) is Probe),
{
}

/// With a stored token the check always asks the provider, in the name of
/// exactly that token, and the token is valid if and only if the response has
/// a status from 200 to 299. No response at all means invalid.
pub proof fn lemma_stored_token_is_probed(token: Seq<char>, reply: ReplyView)
    ensures
        check_of(Some(token)) == (CheckStepView::Probe { request: profile_request_view(token) }),
        profile_request_view(token).bearer == Some(token),
        status_of(reply) == TokenStatus::Valid <==> (response_status(reply) matches Some(status)
            && 200 <= status <= 299),
        reply is Unreachable ==> status_of(reply) == TokenStatus::Invalid,
{
}

} // verus!
