//! Polling for the user's approval.
//!
//! One poll is one round trip. The caller sends
//! [`token_request`](crate::provider::token_request), hands the reply to
//! [`poll`], and comes back after the session's interval for as long as the
//! outcome tells it to. Nothing here waits, counts or remembers.

use crate::json::{
    describe, get, json_view, member, parse, parsed, render, rendered, text_at, text_member,
    JsonView,
};
use crate::provider::{
    unparsable_message, unparsable_text, unreachable_message, unreachable_text, ProviderReply,
    ReplyView,
};
use vstd::prelude::*;

verus! {

/// The reason given when the provider's document holds neither an error nor
/// an access token.
pub const EMPTY_RESPONSE: &'static str = "empty response";

/// What the caller is answered when the provider's document holds neither an
/// error nor an access token.
pub const NO_ACCESS_TOKEN: &'static str = "No access token yet";

/// The code by which the provider says that the user has not approved yet.
pub const AUTHORIZATION_PENDING: &'static str = "authorization_pending";

/// How one poll ended.
#[derive(Clone, Debug, PartialEq, Eq)]
pub enum GrantOutcome {
    /// The user approved, and this is the token.
    Granted { access_token: String },
    /// The user has not approved yet.
    Pending,
    /// The provider answered with an error, or with nothing to go by;
    /// `reason` is the provider's code, unread.
    Denied { reason: String },
    /// No answer could be read; `message` says why.
    TransportError { message: String },
}

/// An outcome, by the text it carries.
pub enum GrantView {
    Granted { access_token: Seq<char> },
    Pending,
    Denied { reason: Seq<char> },
    TransportError { message: Seq<char> },
}

impl View for GrantOutcome {
    type V = GrantView;

    open spec fn view(&self) -> GrantView {
        match self {
            GrantOutcome::Granted { access_token } => GrantView::Granted {
                access_token: access_token@,
            },
            GrantOutcome::Pending => GrantView::Pending,
            GrantOutcome::Denied { reason } => GrantView::Denied { reason: reason@ },
            GrantOutcome::TransportError { message } => GrantView::TransportError {
                message: message@,
            },
        }
    }
}

impl GrantView {
    /// What is reported for an outcome that grants nothing.
    pub open spec fn failure(self) -> Option<Seq<char>> {
        match self {
            GrantView::Granted { .. } => None,
            GrantView::Pending => Some(AUTHORIZATION_PENDING@),
            GrantView::Denied { reason } => Some(reason),
            GrantView::TransportError { message } => Some(message),
        }
    }
}

impl GrantOutcome {
    /// What to report for an outcome that grants nothing: the provider's code
    /// or the transport's message. A grant has nothing to report.
    pub fn failure(&self) -> (text: Option<String>)
        ensures
            text.deep_view() == self@.failure(),
    {
        match self {
            GrantOutcome::Granted { .. } => None,
            GrantOutcome::Pending => Some(AUTHORIZATION_PENDING.to_owned()),
            GrantOutcome::Denied { reason } => Some(reason.clone()),
            GrantOutcome::TransportError { message } => Some(message.clone()),
        }
    }
}

/// The reason that an `error` member gives: its text where it is a string,
/// as the provider wrote it, and else the member written as JSON.
pub open spec fn reason_of(error: JsonView) -> Seq<char> {
    match error {
        JsonView::Text(reason) => reason,
        other => rendered(other),
    }
}

/// What a poll makes of a document. An `error` member decides, whatever its
/// type and whatever else the document holds: the outcome is a denial with
/// the reason that the member gives. Only without one is an `access_token`
/// that is a string the grant. Without either, the outcome is a denial for an
/// empty response.
pub open spec fn grant_of_json(json: JsonView) -> GrantView {
    match member(json, "error"@) {
        Some(error) => GrantView::Denied { reason: reason_of(error) },
        None => match text_at(json, "access_token"@) {
            Some(access_token) => GrantView::Granted { access_token },
            None => GrantView::Denied { reason: EMPTY_RESPONSE@ },
        },
    }
}

/// What a poll makes of a reply.
pub open spec fn grant_of(reply: ReplyView) -> GrantView {
    match reply {
        ReplyView::Unreachable { cause } => GrantView::TransportError {
            message: unreachable_text(cause),
        },
        ReplyView::Unreadable { cause, .. } => GrantView::TransportError {
            message: unparsable_text(cause),
        },
        ReplyView::Answered { body, .. } => match parsed(body) {
            Ok(json) => grant_of_json(json),
            Err(cause) => GrantView::TransportError { message: unparsable_text(cause) },
        },
    }
}

/// Whether a document holds neither an `error` nor an `access_token` that is
/// a string.
pub open spec fn holds_nothing_json(json: JsonView) -> bool {
    member(json, "error"@) is None && text_at(json, "access_token"@) is None
}

/// Whether a reply brought a document that holds nothing to go by.
pub open spec fn holds_nothing(reply: ReplyView) -> bool {
    reply matches ReplyView::Answered { body, .. } && (parsed(body) matches Ok(json)
        && holds_nothing_json(json))
}

/// What the caller is answered for a poll that granted nothing: the fixed
/// words for a document that holds nothing to go by, else what the outcome
/// reports. For a grant there is nothing to answer, and the text is empty.
pub open spec fn refusal_of(reply: ReplyView) -> Seq<char> {
    if holds_nothing(reply) {
        NO_ACCESS_TOKEN@
    } else {
        match grant_of(reply).failure() {
            Some(text) => text,
            None => Seq::empty(),
        }
    }
}

fn read_json(json: &serde_json::Value) -> (read: (GrantOutcome, bool))
    ensures
        read.0@ == grant_of_json(json_view(*json)),
        read.1 == holds_nothing_json(json_view(*json)),
{
    match get(json, "error") {
        Some(error) => {
            let reason = match error.as_str() {
                Some(reason) => reason.to_owned(),
                None => render(error),
            };
            (GrantOutcome::Denied { reason }, false)
        },
        None => match text_member(json, "access_token") {
            Some(access_token) => (
                GrantOutcome::Granted { access_token: access_token.to_owned() },
                false,
            ),
            None => (GrantOutcome::Denied { reason: EMPTY_RESPONSE.to_owned() }, true),
        },
    }
}

/// Reads a reply: the outcome of the poll, and whether the reply brought a
/// document that holds nothing to go by.
pub(crate) fn read(reply: &ProviderReply) -> (read: (GrantOutcome, bool))
    ensures
        read.0@ == grant_of(reply@),
        read.1 == holds_nothing(reply@),
{
    match reply {
        ProviderReply::Unreachable { cause } => (
            GrantOutcome::TransportError { message: unreachable_message(cause.as_str()) },
            false,
        ),
        ProviderReply::Unreadable { cause, .. } => (
            GrantOutcome::TransportError { message: unparsable_message(cause.as_str()) },
            false,
        ),
        ProviderReply::Answered { body, .. } => match parse(body.as_slice()) {
            Ok(json) => read_json(&json),
            Err(error) => {
                let cause = describe(&error);
                (
                    GrantOutcome::TransportError { message: unparsable_message(cause.as_str()) },
                    false,
                )
            },
        },
    }
}

/// Words the answer for a poll that granted nothing.
pub(crate) fn refusal(outcome: &GrantOutcome, nothing: bool) -> (text: String)
    ensures
        text@ == (if nothing {
            NO_ACCESS_TOKEN@
        } else {
            match outcome@.failure() {
                Some(text) => text,
                None => Seq::empty(),
            }
        }),
{
    if nothing {
        NO_ACCESS_TOKEN.to_owned()
    } else {
        match outcome.failure() {
            Some(text) => text,
            None => String::new(),
        }
    }
}

/// Reads the outcome out of the provider's document.
pub fn grant_from_json(json: &serde_json::Value) -> (outcome: GrantOutcome)
    ensures
        outcome@ == grant_of_json(json_view(*json)),
{
    read_json(json).0
}

/// Reads the reply to the exchange of a device code.
pub fn poll(reply: &ProviderReply) -> (outcome: GrantOutcome)
    ensures
        outcome@ == grant_of(reply@),
        !(outcome is Pending),
{
    read(reply).0
}

/// A response whose document holds an `error` member is a denial and never a
/// grant, whether or not the document holds a token as well. The reason is
/// the member's text where it is a string, and else the member as JSON.
pub proof fn lemma_error_denies(status: u16, body: Seq<u8>, json: JsonView, error: JsonView)
    requires
        parsed(body) == Ok::<JsonView, Seq<char>>(json),
        member(json, "error"@) == Some(error),
    ensures
        grant_of(ReplyView::Answered { status, body }) is Denied,
        !(grant_of(ReplyView::Answered { status, body }) is Granted),
        error matches JsonView::Text(reason) ==> grant_of(ReplyView::Answered { status, body }) == (
        GrantView::Denied { reason }),
        !(error is Text) ==> grant_of(ReplyView::Answered { status, body }) == (GrantView::Denied {
            reason: rendered(error),
        }),
{
}

/// A response whose document holds an `access_token` that is a string, and
/// no `error` member, is a grant of that token.
pub proof fn lemma_token_grants(
    status: u16,
    body: Seq<u8>,
    json: JsonView,
    access_token: Seq<char>,
)
    requires
        parsed(body) == Ok::<JsonView, Seq<char>>(json),
        member(json, "error"@) is None,
        text_at(json, "access_token"@) == Some(access_token),
    ensures
        grant_of(ReplyView::Answered { status, body }) == (GrantView::Granted { access_token }),
{
}

/// A response whose document holds neither is a denial for an empty
/// response: it grants nothing, it is not taken for a pending approval, and
/// the caller is answered that there is no access token yet.
pub proof fn lemma_empty_document_denies(status: u16, body: Seq<u8>, json: JsonView)
    requires
        parsed(body) == Ok::<JsonView, Seq<char>>(json),
        member(json, "error"@) is None,
        text_at(json, "access_token"@) is None,
    ensures
        grant_of(ReplyView::Answered { status, body }) == (GrantView::Denied {
            reason: EMPTY_RESPONSE@,
        }),
        !(grant_of(ReplyView::Answered { status, body }) is Granted),
        !(grant_of(ReplyView::Answered { status, body }) is Pending),
        refusal_of(ReplyView::Answered { status, body }) == NO_ACCESS_TOKEN@,
{
}

/// A poll grants a token only if a response arrived, its body parsed, and the
/// document holds that token and no `error` member. A reply that could not be
/// read is a transport error. A poll never reads a reply as a pending
/// approval, whatever the reply.
pub proof fn lemma_grant_needs_token(reply: ReplyView)
    ensures
        !(grant_of(reply) is Pending),
        grant_of(reply) matches GrantView::Granted { access_token } ==> (reply matches ReplyView::Answered {
            body,
            ..
        } && (parsed(body) matches Ok(json) && member(json, "error"@) is None && text_at(
            json,
            "access_token"@,
        ) == Some(access_token))),
        reply matches ReplyView::Unreachable { cause } ==> grant_of(reply) == (
        GrantView::TransportError { message: unreachable_text(cause) }),
        reply matches ReplyView::Unreadable { cause, .. } ==> grant_of(reply) == (
        GrantView::TransportError { message: unparsable_text(cause) }),
        reply matches ReplyView::Answered { body, .. } ==> (parsed(body) matches Err(cause)
            ==> grant_of(reply) == (GrantView::TransportError { message: unparsable_text(cause) })),
{
}

/// Where nothing was granted, the caller is answered with the provider's
/// reason or the transport's message, except for a document that holds
/// nothing to go by, which is answered with fixed words.
pub proof fn lemma_refusal_reports_the_outcome(reply: ReplyView)
    requires
        !(grant_of(reply) is Granted),
    ensures
        holds_nothing(reply) ==> refusal_of(reply) == NO_ACCESS_TOKEN@ && grant_of(reply) == (
        GrantView::Denied { reason: EMPTY_RESPONSE@ }),
        !holds_nothing(reply) ==> (grant_of(reply) matches GrantView::Denied { reason }
            ==> refusal_of(reply) == reason),
        grant_of(reply) matches GrantView::TransportError { message } ==> refusal_of(reply)
            == message,
{
}

} // verus!
