//! Starting a device authorization.
//!
//! The caller sends [`device_code_request`](crate::provider::device_code_request)
//! once and hands the reply to [`start`]. There is no second attempt here:
//! whether to try again after a failure is the caller's decision.

use crate::json::{
    describe, integer_at, integer_member, json_view, parse, parsed, render, rendered, text_at,
    text_member, JsonView,
};
use crate::provider::{
    unparsable_message, unparsable_text, unreachable_message, unreachable_text, ProviderReply,
    ReplyView,
};
use crate::text::join;
use vstd::prelude::*;

verus! {

/// The lifetime of a session, in seconds, where the provider's does not fit.
pub const DEFAULT_EXPIRES_IN: u32 = 600;

/// The pause between two polls, in seconds, where the provider's does not fit.
pub const DEFAULT_INTERVAL: u32 = 5;

/// A device authorization that the provider has opened.
#[derive(Clone, Debug, PartialEq, Eq)]
pub struct DeviceStartResponse {
    /// The code to poll with. It is not for the user's eyes.
    pub device_code: String,
    /// The code that the user types in.
    pub user_code: String,
    /// Where the user types it in.
    pub verification_uri: String,
    /// For how many seconds the session is good.
    pub expires_in: u32,
    /// How many seconds to let pass between two polls, at the least.
    pub interval: u32,
}

/// A session, by the text of its codes.
pub struct SessionView {
    pub device_code: Seq<char>,
    pub user_code: Seq<char>,
    pub verification_uri: Seq<char>,
    pub expires_in: u32,
    pub interval: u32,
}

impl View for DeviceStartResponse {
    type V = SessionView;

    open spec fn view(&self) -> SessionView {
        SessionView {
            device_code: self.device_code@,
            user_code: self.user_code@,
            verification_uri: self.verification_uri@,
            expires_in: self.expires_in,
            interval: self.interval,
        }
    }
}

/// Why no device authorization was opened.
#[derive(Clone, Debug, PartialEq, Eq)]
pub enum StartError {
    /// No response arrived; `cause` is what the transport reported.
    ProviderUnreachable { cause: String },
    /// The body could not be read or is not JSON; `cause` is what the
    /// transport or the parser reported.
    MalformedResponse { cause: String },
    /// The body is JSON but no device authorization; `body` is its text.
    ProviderError { body: String },
}

/// A start error, by the text it carries.
pub enum StartErrorView {
    ProviderUnreachable { cause: Seq<char> },
    MalformedResponse { cause: Seq<char> },
    ProviderError { body: Seq<char> },
}

impl View for StartError {
    type V = StartErrorView;

    open spec fn view(&self) -> StartErrorView {
        match self {
            StartError::ProviderUnreachable { cause } => StartErrorView::ProviderUnreachable {
                cause: cause@,
            },
            StartError::MalformedResponse { cause } => StartErrorView::MalformedResponse {
                cause: cause@,
            },
            StartError::ProviderError { body } => StartErrorView::ProviderError { body: body@ },
        }
    }
}

impl StartErrorView {
    /// The sentence that reports the error.
    pub open spec fn message(self) -> Seq<char> {
        match self {
            StartErrorView::ProviderUnreachable { cause } => unreachable_text(cause),
            StartErrorView::MalformedResponse { cause } => unparsable_text(cause),
            StartErrorView::ProviderError { body } => "GitHub error: "@ + body,
        }
    }
}

impl StartError {
    /// The sentence that reports the error to the user.
    pub fn message(&self) -> (text: String)
        ensures
            text@ == self@.message(),
    {
        match self {
            StartError::ProviderUnreachable { cause } => unreachable_message(cause.as_str()),
            StartError::MalformedResponse { cause } => unparsable_message(cause.as_str()),
            StartError::ProviderError { body } => join("GitHub error: ", body.as_str()),
        }
    }
}

/// A number of seconds as the session keeps it: the provider's where it is
/// from zero up to `u32::MAX`, else `fallback`.
pub open spec fn fit(reported: int, fallback: u32) -> u32 {
    if 0 <= reported <= u32::MAX {
        reported as u32
    } else {
        fallback
    }
}

/// The session that a document describes. There is one exactly when the
/// document holds all five fields, the three codes as strings and the two
/// durations as integers. A duration that the session cannot hold, below zero
/// or above `u32::MAX`, does not fail the start: its default stands in.
pub open spec fn session_of(json: JsonView) -> Option<SessionView> {
    match (
        text_at(json, "device_code"@),
        text_at(json, "user_code"@),
        text_at(json, "verification_uri"@),
        integer_at(json, "expires_in"@),
        integer_at(json, "interval"@),
    ) {
        (
            Some(device_code),
            Some(user_code),
            Some(verification_uri),
            Some(expires_in),
            Some(interval),
        ) => Some(
            SessionView {
                device_code,
                user_code,
                verification_uri,
                expires_in: fit(expires_in, DEFAULT_EXPIRES_IN),
                interval: fit(interval, DEFAULT_INTERVAL),
            },
        ),
        _ => None,
    }
}

/// What a start makes of a document: the session it describes, else the
/// provider error that carries the document's text.
pub open spec fn start_of_json(json: JsonView) -> Result<SessionView, StartErrorView> {
    match session_of(json) {
        Some(session) => Ok(session),
        None => Err(StartErrorView::ProviderError { body: rendered(json) }),
    }
}

/// What a start makes of a reply.
pub open spec fn start_of(reply: ReplyView) -> Result<SessionView, StartErrorView> {
    match reply {
        ReplyView::Unreachable { cause } => Err(StartErrorView::ProviderUnreachable { cause }),
        ReplyView::Unreadable { cause, .. } => Err(StartErrorView::MalformedResponse { cause }),
        ReplyView::Answered { body, .. } => match parsed(body) {
            Ok(json) => start_of_json(json),
            Err(cause) => Err(StartErrorView::MalformedResponse { cause }),
        },
    }
}

/// The view of what a start returns.
pub open spec fn started_view(r: Result<DeviceStartResponse, StartError>) -> Result<
    SessionView,
    StartErrorView,
> {
    match r {
        Ok(session) => Ok(session@),
        Err(error) => Err(error@),
    }
}

fn seconds(reported: i128, fallback: u32) -> (kept: u32)
    ensures
        kept == fit(reported as int, fallback),
{
    match u32::try_from(reported) {
        Ok(fitting) => fitting,
        Err(_) => fallback,
    }
}

/// Reads the session out of the provider's document.
pub fn session_from_json(json: &serde_json::Value) -> (r: Result<DeviceStartResponse, StartError>)
    ensures
        started_view(r) == start_of_json(json_view(*json)),
{
    let device_code = text_member(json, "device_code");
    let user_code = text_member(json, "user_code");
    let verification_uri = text_member(json, "verification_uri");
    let expires_in = integer_member(json, "expires_in");
    let interval = integer_member(json, "interval");
    match (device_code, user_code, verification_uri, expires_in, interval) {
        (
            Some(device_code),
            Some(user_code),
            Some(verification_uri),
            Some(expires_in),
            Some(interval),
        ) => Ok(
            DeviceStartResponse {
                device_code: device_code.to_owned(),
                user_code: user_code.to_owned(),
                verification_uri: verification_uri.to_owned(),
                expires_in: seconds(expires_in, DEFAULT_EXPIRES_IN),
                interval: seconds(interval, DEFAULT_INTERVAL),
            },
        ),
        _ => Err(StartError::ProviderError { body: render(json) }),
    }
}

/// Reads the reply to the request for a device code.
pub fn start(reply: &ProviderReply) -> (r: Result<DeviceStartResponse, StartError>)
    ensures
        started_view(r) == start_of(reply@),
{
    match reply {
        ProviderReply::Unreachable { cause } => Err(
            StartError::ProviderUnreachable { cause: cause.clone() },
        ),
        ProviderReply::Unreadable { cause, .. } => Err(
            StartError::MalformedResponse { cause: cause.clone() },
        ),
        ProviderReply::Answered { body, .. } => match parse(body.as_slice()) {
            Ok(json) => session_from_json(&json),
            Err(error) => Err(StartError::MalformedResponse { cause: describe(&error) }),
        },
    }
}

/// A response whose document holds all five fields starts a session,
/// whatever its status. The session has the three codes as the provider sent
/// them, and each of the two durations as sent where it is from zero up to
/// `u32::MAX`; where it is not, the lifetime is 600 and the pause is 5.
pub proof fn lemma_complete_document_starts(
    status: u16,
    body: Seq<u8>,
    json: JsonView,
    device_code: Seq<char>,
    user_code: Seq<char>,
    verification_uri: Seq<char>,
    expires_in: int,
    interval: int,
)
    requires
        parsed(body) == Ok::<JsonView, Seq<char>>(json),
        text_at(json, "device_code"@) == Some(device_code),
        text_at(json, "user_code"@) == Some(user_code),
        text_at(json, "verification_uri"@) == Some(verification_uri),
        integer_at(json, "expires_in"@) == Some(expires_in),
        integer_at(json, "interval"@) == Some(interval),
    ensures
        start_of(ReplyView::Answered { status, body }) == Ok::<SessionView, StartErrorView>(
            SessionView {
                device_code,
                user_code,
                verification_uri,
                expires_in: if 0 <= expires_in <= u32::MAX {
                    expires_in as u32
                } else {
                    600
                },
                interval: if 0 <= interval <= u32::MAX {
                    interval as u32
                } else {
                    5
                },
            },
        ),
{
}

/// A response whose document lacks one of the five fields, or holds one of
/// them with another type, starts nothing: the result is the provider error
/// with the document's text, and no session, however many of the fields are
/// there.
pub proof fn lemma_incomplete_document_is_refused(status: u16, body: Seq<u8>, json: JsonView)
    requires
        parsed(body) == Ok::<JsonView, Seq<char>>(json),
        text_at(json, "device_code"@) is None || text_at(json, "user_code"@) is None || text_at(
            json,
            "verification_uri"@,
        ) is None || integer_at(json, "expires_in"@) is None || integer_at(json, "interval"@)
            is None,
    ensures
        start_of(ReplyView::Answered { status, body }) == Err::<SessionView, StartErrorView>(
            StartErrorView::ProviderError { body: rendered(json) },
        ),
{
}

/// A round trip without a response is an unreachable provider. A body that
/// could not be read, or that is not JSON, is a malformed response. Each
/// carries the cause as it was reported, and none starts a session.
pub proof fn lemma_unread_reply_starts_nothing(reply: ReplyView)
    ensures
        reply matches ReplyView::Unreachable { cause } ==> start_of(reply) == Err::<
            SessionView,
            StartErrorView,
        >(StartErrorView::ProviderUnreachable { cause }),
        reply matches ReplyView::Unreadable { cause, .. } ==> start_of(reply) == Err::<
            SessionView,
            StartErrorView,
        >(StartErrorView::MalformedResponse { cause }),
        reply matches ReplyView::Answered { body, .. } ==> (parsed(body) matches Err(cause)
            ==> start_of(reply) == Err::<SessionView, StartErrorView>(
            StartErrorView::MalformedResponse { cause },
        )),
{
}

} // verus!
