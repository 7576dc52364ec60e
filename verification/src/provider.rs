//! The four requests that go to the provider, and what comes back for one.
//!
//! Sending is the caller's part. A [`ProviderRequest`] says what to send, and a
//! [`ProviderReply`] says how the round trip ended.

use crate::text::join;
use vstd::prelude::*;

verus! {

/// Where a device code is asked for.
pub const DEVICE_CODE_URL: &'static str = "https://github.com/login/device/code";

/// Where a device code is exchanged for an access token.
pub const TOKEN_URL: &'static str = "https://github.com/login/oauth/access_token";

/// Where the account's profile is read.
pub const PROFILE_URL: &'static str = "https://api.github.com/user";

/// Where the account's email addresses are read.
pub const EMAILS_URL: &'static str = "https://api.github.com/user/emails";

/// The client identifier that is used where the build names no other.
pub const DEFAULT_CLIENT_ID: &'static str = "Ov23li9bxz3kKfPOIsGm";

/// The access asked for: the account's email addresses and its repositories.
pub const SCOPE: &'static str = "user:email,repo";

/// The grant type of the device flow.
pub const DEVICE_GRANT_TYPE: &'static str = "urn:ietf:params:oauth:grant-type:device_code";

/// How the client names itself to the provider's API.
pub const USER_AGENT: &'static str = "vibe-kanban-app";

/// The two methods that the provider is spoken to with.
#[derive(Clone, Copy, Debug, PartialEq, Eq, Structural)]
pub enum HttpMethod {
    Get,
    Post,
}

/// One request to the provider.
#[derive(Clone, Debug, PartialEq, Eq)]
pub struct ProviderRequest {
    pub method: HttpMethod,
    pub url: String,
    /// Header names with their values, in the order to set them.
    pub headers: Vec<(String, String)>,
    /// The fields of the form-encoded body; empty where the request has none.
    pub form: Vec<(String, String)>,
    /// The token to authenticate with, where the request carries one.
    pub bearer: Option<String>,
}

/// A request, by the text of its parts.
pub struct RequestView {
    pub method: HttpMethod,
    pub url: Seq<char>,
    pub headers: Seq<(Seq<char>, Seq<char>)>,
    pub form: Seq<(Seq<char>, Seq<char>)>,
    pub bearer: Option<Seq<char>>,
}

impl View for ProviderRequest {
    type V = RequestView;

    open spec fn view(&self) -> RequestView {
        RequestView {
            method: self.method,
            url: self.url@,
            headers: self.headers.deep_view(),
            form: self.form.deep_view(),
            bearer: self.bearer.deep_view(),
        }
    }
}

/// How a round trip to the provider ended.
#[derive(Clone, Debug, PartialEq, Eq)]
pub enum ProviderReply {
    /// No response arrived; `cause` is what the transport reported.
    Unreachable { cause: String },
    /// A response arrived with this status, but its body could not be read to
    /// the end; `cause` is what the transport reported.
    Unreadable { status: u16, cause: String },
    /// A response arrived, with this status and this body.
    Answered { status: u16, body: Vec<u8> },
}

/// A reply, by the text of its cause or the bytes of its body.
pub enum ReplyView {
    Unreachable { cause: Seq<char> },
    Unreadable { status: u16, cause: Seq<char> },
    Answered { status: u16, body: Seq<u8> },
}

impl View for ProviderReply {
    type V = ReplyView;

    open spec fn view(&self) -> ReplyView {
        match self {
            ProviderReply::Unreachable { cause } => ReplyView::Unreachable { cause: cause@ },
            ProviderReply::Unreadable { status, cause } => ReplyView::Unreadable {
                status: *status,
                cause: cause@,
            },
            ProviderReply::Answered { status, body } => ReplyView::Answered {
                status: *status,
                body: body@,
            },
        }
    }
}

/// What is reported when no response arrived.
pub open spec fn unreachable_text(cause: Seq<char>) -> Seq<char> {
    "Failed to contact GitHub: "@ + cause
}

/// What is reported when the body of a response could not be read, or is
/// not JSON.
pub open spec fn unparsable_text(cause: Seq<char>) -> Seq<char> {
    "Failed to parse GitHub response: "@ + cause
}

/// The request for a device code: a form with the client identifier and the
/// scope, answered in JSON.
pub open spec fn device_code_request_view(client_id: Seq<char>) -> RequestView {
    RequestView {
        method: HttpMethod::Post,
        url: DEVICE_CODE_URL@,
        headers: seq![("Accept"@, "application/json"@)],
        form: seq![("client_id"@, client_id), ("scope"@, SCOPE@)],
        bearer: None,
    }
}

/// The request that exchanges a device code: a form with the client
/// identifier, the device code and the grant type, answered in JSON.
pub open spec fn token_request_view(client_id: Seq<char>, device_code: Seq<char>) -> RequestView {
    RequestView {
        method: HttpMethod::Post,
        url: TOKEN_URL@,
        headers: seq![("Accept"@, "application/json"@)],
        form: seq![
            ("client_id"@, client_id),
            ("device_code"@, device_code),
            ("grant_type"@, DEVICE_GRANT_TYPE@),
        ],
        bearer: None,
    }
}

/// A read of `url` in the name of the holder of `access_token`.
pub open spec fn bearer_request_view(url: Seq<char>, access_token: Seq<char>) -> RequestView {
    RequestView {
        method: HttpMethod::Get,
        url,
        headers: seq![("User-Agent"@, USER_AGENT@)],
        form: seq![],
        bearer: Some(access_token),
    }
}

/// The read of the profile of the account that `access_token` belongs to.
pub open spec fn profile_request_view(access_token: Seq<char>) -> RequestView {
    bearer_request_view(PROFILE_URL@, access_token)
}

/// The read of the email addresses of the account that `access_token` belongs
/// to.
pub open spec fn emails_request_view(access_token: Seq<char>) -> RequestView {
    bearer_request_view(EMAILS_URL@, access_token)
}

/// The client identifier to use: the one the build names, else the default.
pub fn client_id<'a>(configured: Option<&'a str>) -> (id: &'a str)
    ensures
        id@ == match configured {
            Some(named) => named@,
            None => DEFAULT_CLIENT_ID@,
        },
{
    match configured {
        Some(named) => named,
        None => DEFAULT_CLIENT_ID,
    }
}

/// Words the report that no response arrived.
pub fn unreachable_message(cause: &str) -> (text: String)
    ensures
        text@ == unreachable_text(cause@),
{
    join("Failed to contact GitHub: ", cause)
}

/// Words the report that the body of a response could not be read, or is not
/// JSON.
pub fn unparsable_message(cause: &str) -> (text: String)
    ensures
        text@ == unparsable_text(cause@),
{
    join("Failed to parse GitHub response: ", cause)
}

fn pair(name: &str, value: &str) -> (field: (String, String))
    ensures
        field.deep_view() == (name@, value@),
{
    (name.to_owned(), value.to_owned())
}

fn accept_json() -> (headers: Vec<(String, String)>)
    ensures
        headers.deep_view() == seq![("Accept"@, "application/json"@)],
{
    let mut headers = Vec::new();
    headers.push(pair("Accept", "application/json"));
    assert(headers.deep_view() =~= seq![("Accept"@, "application/json"@)]);
    headers
}

/// Builds the request for a device code.
pub fn device_code_request(client_id: &str) -> (request: ProviderRequest)
    ensures
        request@ == device_code_request_view(client_id@),
{
    let mut form = Vec::new();
    form.push(pair("client_id", client_id));
    form.push(pair("scope", SCOPE));
    assert(form.deep_view() =~= seq![("client_id"@, client_id@), ("scope"@, SCOPE@)]);
    ProviderRequest {
        method: HttpMethod::Post,
        url: DEVICE_CODE_URL.to_owned(),
        headers: accept_json(),
        form,
        bearer: None,
    }
}

/// Builds the request that exchanges `device_code` for an access token.
pub fn token_request(client_id: &str, device_code: &str) -> (request: ProviderRequest)
    ensures
        request@ == token_request_view(client_id@, device_code@),
{
    let mut form = Vec::new();
    form.push(pair("client_id", client_id));
    form.push(pair("device_code", device_code));
    form.push(pair("grant_type", DEVICE_GRANT_TYPE));
    assert(form.deep_view() =~= seq![
        ("client_id"@, client_id@),
        ("device_code"@, device_code@),
        ("grant_type"@, DEVICE_GRANT_TYPE@),
    ]);
    ProviderRequest {
        method: HttpMethod::Post,
        url: TOKEN_URL.to_owned(),
        headers: accept_json(),
        form,
        bearer: None,
    }
}

fn bearer_request(url: &str, access_token: &str) -> (request: ProviderRequest)
    ensures
        request@ == bearer_request_view(url@, access_token@),
{
    let mut headers = Vec::new();
    headers.push(pair("User-Agent", USER_AGENT));
    assert(headers.deep_view() =~= seq![("User-Agent"@, USER_AGENT@)]);
    let form: Vec<(String, String)> = Vec::new();
    assert(form.deep_view() =~= seq![]);
    ProviderRequest {
        method: HttpMethod::Get,
        url: url.to_owned(),
        headers,
        form,
        bearer: Some(access_token.to_owned()),
    }
}

/// Builds the read of the profile in the name of `access_token`.
pub fn profile_request(access_token: &str) -> (request: ProviderRequest)
    ensures
        request@ == profile_request_view(access_token@),
{
    bearer_request(PROFILE_URL, access_token)
}

/// Builds the read of the email addresses in the name of `access_token`.
pub fn emails_request(access_token: &str) -> (request: ProviderRequest)
    ensures
        request@ == emails_request_view(access_token@),
{
    bearer_request(EMAILS_URL, access_token)
}

} // verus!
