//! The whole login, from the poll to the resolved identity.
//!
//! A login is a short conversation with the provider: exchange the device
//! code, read the profile, read the email addresses. What to send next depends
//! on what came back, and that is decided here. The caller starts with
//! [`begin`], sends what a [`LoginStep::Send`] holds, and hands the reply and
//! the state to [`advance`], until the step is one of the two that end the
//! conversation.

use crate::identity::{
    primary_email_from, primary_email_of, username_from, username_of, Identity, IdentityView,
};
use crate::poll::{
    grant_of, holds_nothing, read, refusal, refusal_of, GrantOutcome, GrantView, NO_ACCESS_TOKEN,
};
use crate::provider::{
    emails_request, emails_request_view, profile_request, profile_request_view, token_request,
    token_request_view, ProviderReply, ProviderRequest, ReplyView, RequestView,
};
use vstd::prelude::*;

verus! {

/// Where a login stands while a request is out.
#[derive(Clone, Debug, PartialEq, Eq)]
pub enum LoginState {
    /// The exchange of the device code is out.
    Exchanging,
    /// The read of the profile is out.
    ReadingProfile { access_token: String },
    /// The read of the email addresses is out.
    ReadingEmails { access_token: String, username: Option<String> },
}

/// A state, by the text it carries.
pub enum LoginStateView {
    Exchanging,
    ReadingProfile { access_token: Seq<char> },
    ReadingEmails { access_token: Seq<char>, username: Option<Seq<char>> },
}

impl View for LoginState {
    type V = LoginStateView;

    open spec fn view(&self) -> LoginStateView {
        match self {
            LoginState::Exchanging => LoginStateView::Exchanging,
            LoginState::ReadingProfile { access_token } => LoginStateView::ReadingProfile {
                access_token: access_token@,
            },
            LoginState::ReadingEmails { access_token, username } => LoginStateView::ReadingEmails {
                access_token: access_token@,
                username: username.deep_view(),
            },
        }
    }
}

/// What the caller does next.
#[derive(Clone, Debug, PartialEq, Eq)]
pub enum LoginStep {
    /// Send `request`, then advance from `state` with the reply.
    Send { state: LoginState, request: ProviderRequest },
    /// The token is granted and the identity resolved: finish the login.
    Resolved { access_token: String, identity: Identity },
    /// Nothing was granted: answer the caller with `answer`.
    Refused { outcome: GrantOutcome, answer: String },
}

/// A step, by the views of what it carries.
pub enum LoginStepView {
    Send { state: LoginStateView, request: RequestView },
    Resolved { access_token: Seq<char>, identity: IdentityView },
    Refused { outcome: GrantView, answer: Seq<char> },
}

impl View for LoginStep {
    type V = LoginStepView;

    open spec fn view(&self) -> LoginStepView {
        match self {
            LoginStep::Send { state, request } => LoginStepView::Send {
                state: state@,
                request: request@,
            },
            LoginStep::Resolved { access_token, identity } => LoginStepView::Resolved {
                access_token: access_token@,
                identity: identity@,
            },
            LoginStep::Refused { outcome, answer } => LoginStepView::Refused {
                outcome: outcome@,
                answer: answer@,
            },
        }
    }
}

/// The first step of a login: the exchange of the device code.
pub open spec fn begin_of(client_id: Seq<char>, device_code: Seq<char>) -> LoginStepView {
    LoginStepView::Send {
        state: LoginStateView::Exchanging,
        request: token_request_view(client_id, device_code),
    }
}

/// The step that follows a reply. After the exchange, a grant leads to the
/// read of the profile, and anything else ends the login with the outcome of
/// the poll and the answer for the caller. The two reads never end it: each
/// takes from its reply what it can and goes on.
pub open spec fn step_of(state: LoginStateView, reply: ReplyView) -> LoginStepView {
    match state {
        LoginStateView::Exchanging => match grant_of(reply) {
            GrantView::Granted { access_token } => LoginStepView::Send {
                state: LoginStateView::ReadingProfile { access_token },
                request: profile_request_view(access_token),
            },
            outcome => LoginStepView::Refused { outcome, answer: refusal_of(reply) },
        },
        LoginStateView::ReadingProfile { access_token } => LoginStepView::Send {
            state: LoginStateView::ReadingEmails { access_token, username: username_of(reply) },
            request: emails_request_view(access_token),
        },
        LoginStateView::ReadingEmails { access_token, username } => LoginStepView::Resolved {
            access_token,
            identity: IdentityView { username, primary_email: primary_email_of(reply) },
        },
    }
}

/// How many replies a login in this state may still need.
pub open spec fn replies_left(state: LoginStateView) -> nat {
    match state {
        LoginStateView::Exchanging => 3,
        LoginStateView::ReadingProfile { .. } => 2,
        LoginStateView::ReadingEmails { .. } => 1,
    }
}

/// Begins a login with the device code that the user was given.
pub fn begin(client_id: &str, device_code: &str) -> (step: LoginStep)
    ensures
        step@ == begin_of(client_id@, device_code@),
{
    LoginStep::Send { state: LoginState::Exchanging, request: token_request(client_id, device_code) }
}

/// Takes the login one step on, from the state in which the request went out
/// and with the reply that came back.
pub fn advance(state: LoginState, reply: &ProviderReply) -> (step: LoginStep)
    ensures
        step@ == step_of(state@, reply@),
{
    match state {
        LoginState::Exchanging => {
            let (outcome, nothing) = read(reply);
            match outcome {
                GrantOutcome::Granted { access_token } => {
                    let request = profile_request(access_token.as_str());
                    LoginStep::Send { state: LoginState::ReadingProfile { access_token }, request }
                },
                outcome => {
                    let answer = refusal(&outcome, nothing);
                    LoginStep::Refused { outcome, answer }
                },
            }
        },
        LoginState::ReadingProfile { access_token } => {
            let request = emails_request(access_token.as_str());
            let username = username_from(reply);
            LoginStep::Send { state: LoginState::ReadingEmails { access_token, username }, request }
        },
        LoginState::ReadingEmails { access_token, username } => LoginStep::Resolved {
            access_token,
            identity: Identity { username, primary_email: primary_email_from(reply) },
        },
    }
}

/// Every step either ends the login or leaves it in a state that needs fewer
/// replies: a login is over after three round trips at the most.
pub proof fn lemma_login_ends(state: LoginStateView, reply: ReplyView)
    ensures
        step_of(state, reply) matches LoginStepView::Send { state: next, .. } ==> replies_left(next)
            < replies_left(state),
{
}

/// Nothing is read in the name of a token that was not granted: a login goes
/// on after the exchange exactly when the poll of that reply is a grant, and
/// is otherwise refused with the outcome of that poll. A refusal comes from
/// the exchange alone and is never a grant. Its answer is what the outcome
/// reports, but for a document that holds neither an error nor a token, which
/// is answered that there is no access token yet.
pub proof fn lemma_refused_unless_granted(state: LoginStateView, reply: ReplyView)
    ensures
        match grant_of(reply) {
            GrantView::Granted { access_token } => step_of(LoginStateView::Exchanging, reply) == (
            LoginStepView::Send {
                state: LoginStateView::ReadingProfile { access_token },
                request: profile_request_view(access_token),
            }),
            outcome => step_of(LoginStateView::Exchanging, reply) == (LoginStepView::Refused {
                outcome,
                answer: refusal_of(reply),
            }),
        },
        step_of(state, reply) matches LoginStepView::Refused { outcome, answer } ==> state
            is Exchanging && outcome == grant_of(reply) && !(outcome is Granted) && (if holds_nothing(
            reply,
        ) {
            answer == NO_ACCESS_TOKEN@
        } else {
            outcome.failure() == Some(answer)
        }),
{
}

/// A granted login always resolves, whatever the two reads bring: with the
/// token that was granted, the name that the profile gave and the address
/// that the email list gave, each absent where its read gave none.
pub proof fn lemma_granted_login_resolves(
    exchange: ReplyView,
    profile: ReplyView,
    emails: ReplyView,
    access_token: Seq<char>,
)
    requires
        grant_of(exchange) == (GrantView::Granted { access_token }),
    ensures
        step_of(LoginStateView::Exchanging, exchange) matches LoginStepView::Send {
            state: reading_profile,
            request: first,
        } && first == profile_request_view(access_token) && (step_of(reading_profile, profile)
            matches LoginStepView::Send { state: reading_emails, request: second } && second
            == emails_request_view(access_token) && step_of(reading_emails, emails) == (
        LoginStepView::Resolved {
            access_token,
            identity: IdentityView {
                username: username_of(profile),
                primary_email: primary_email_of(emails),
            },
        })),
{
}

} // verus!
