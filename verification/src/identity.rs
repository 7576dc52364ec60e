//! Resolving whose token it is.
//!
//! Two reads follow a grant: the profile, for the account's name, and the list
//! of email addresses, for the primary one. Either may fail without failing
//! the login: what could not be read is simply absent from the [`Identity`].

use crate::json::{
    flag_at, flag_member, json_view, list_view, parse, parsed, text_at, text_member, JsonView,
};
use crate::provider::{ProviderReply, ReplyView};
use vstd::prelude::*;

verus! {

/// What is known of the account behind a token.
#[derive(Clone, Debug, PartialEq, Eq)]
pub struct Identity {
    pub username: Option<String>,
    pub primary_email: Option<String>,
}

/// An identity, by the text of its parts.
pub struct IdentityView {
    pub username: Option<Seq<char>>,
    pub primary_email: Option<Seq<char>>,
}

impl View for Identity {
    type V = IdentityView;

    open spec fn view(&self) -> IdentityView {
        IdentityView {
            username: self.username.deep_view(),
            primary_email: self.primary_email.deep_view(),
        }
    }
}

/// The account's name in a profile: its `login`, where that is a string.
pub open spec fn username_of_json(json: JsonView) -> Option<Seq<char>> {
    text_at(json, "login"@)
}

/// Whether an entry of the email list is flagged as the primary address.
pub open spec fn is_primary(entry: JsonView) -> bool {
    flag_at(entry, "primary"@) == Some(true)
}

/// The first entry that is flagged as primary.
pub open spec fn primary_entry(entries: Seq<JsonView>) -> Option<JsonView>
    decreases entries.len(),
{
    if entries.len() == 0 {
        None
    } else if is_primary(entries[0]) {
        Some(entries[0])
    } else {
        primary_entry(entries.drop_first())
    }
}

/// The primary address in an email list: the `email` of the first entry that
/// is flagged as primary, where that is a string. A document that is no list
/// has none.
pub open spec fn primary_email_of_json(json: JsonView) -> Option<Seq<char>> {
    match json {
        JsonView::List(entries) => match primary_entry(entries) {
            Some(entry) => text_at(entry, "email"@),
            None => None,
        },
        _ => None,
    }
}

/// The document in a reply, where a response arrived and its body parsed.
pub open spec fn document_of(reply: ReplyView) -> Option<JsonView> {
    match reply {
        ReplyView::Unreachable { .. } => None,
        ReplyView::Unreadable { .. } => None,
        ReplyView::Answered { body, .. } => match parsed(body) {
            Ok(json) => Some(json),
            Err(_) => None,
        },
    }
}

/// The account's name as the reply to the profile read gives it.
pub open spec fn username_of(reply: ReplyView) -> Option<Seq<char>> {
    match document_of(reply) {
        Some(json) => username_of_json(json),
        None => None,
    }
}

/// The primary address as the reply to the email read gives it.
pub open spec fn primary_email_of(reply: ReplyView) -> Option<Seq<char>> {
    match document_of(reply) {
        Some(json) => primary_email_of_json(json),
        None => None,
    }
}

/// The first flagged entry is the one at the least flagged index, and there
/// is none exactly when no entry is flagged.
pub proof fn lemma_primary_entry_is_first(entries: Seq<JsonView>)
    ensures
        match primary_entry(entries) {
            Some(entry) => exists|i: int|
                0 <= i < entries.len() && entries[i] == entry && is_primary(#[trigger] entries[i])
                    && forall|j: int| 0 <= j < i ==> !is_primary(#[trigger] entries[j]),
            None => forall|j: int| 0 <= j < entries.len() ==> !is_primary(#[trigger] entries[j]),
        },
    decreases entries.len(),
{
    if entries.len() == 0 {
    } else if is_primary(entries[0]) {
        assert(forall|j: int| 0 <= j < 0 ==> !is_primary(#[trigger] entries[j]));
    } else {
        let rest = entries.drop_first();
        lemma_primary_entry_is_first(rest);
        match primary_entry(rest) {
            Some(entry) => {
                let i = choose|i: int|
                    0 <= i < rest.len() && rest[i] == entry && is_primary(#[trigger] rest[i])
                        && forall|j: int| 0 <= j < i ==> !is_primary(#[trigger] rest[j]);
                assert(entries[i + 1] == rest[i]);
                assert forall|j: int| 0 <= j < i + 1 implies !is_primary(
                    #[trigger] entries[j],
                ) by {
                    if j > 0 {
                        assert(entries[j] == rest[j - 1]);
                    }
                }
            },
            None => {
                assert forall|j: int| 0 <= j < entries.len() implies !is_primary(
                    #[trigger] entries[j],
                ) by {
                    if j > 0 {
                        assert(entries[j] == rest[j - 1]);
                    }
                }
            },
        }
    }
}

/// Reads the account's name out of a profile.
pub fn username_from_json(json: &serde_json::Value) -> (username: Option<String>)
    ensures
        username.deep_view() == username_of_json(json_view(*json)),
{
    match text_member(json, "login") {
        Some(login) => Some(login.to_owned()),
        None => None,
    }
}

/// Reads the primary address out of an email list.
pub fn primary_email_from_json(json: &serde_json::Value) -> (email: Option<String>)
    ensures
        email.deep_view() == primary_email_of_json(json_view(*json)),
{
    match json.as_array() {
        None => None,
        Some(list) => {
            let ghost entries = list_view(list@);
            let mut i: usize = 0;
            assert(entries.skip(0) =~= entries);
            while i < list.len()
                invariant
                    i <= list.len(),
                    entries == list_view(list@),
                    json_view(*json) == JsonView::List(entries),
                    primary_entry(entries) == primary_entry(entries.skip(i as int)),
                decreases list.len() - i,
            {
                let ghost rest = entries.skip(i as int);
                assert(rest[0] == json_view(list@[i as int]));
                assert(rest.drop_first() =~= entries.skip(i + 1));
                match flag_member(&list[i], "primary") {
                    Some(true) => {
                        return match text_member(&list[i], "email") {
                            Some(address) => Some(address.to_owned()),
                            None => None,
                        };
                    },
                    _ => {},
                }
                i += 1;
            }
            assert(entries.skip(i as int).len() == 0);
            None
        },
    }
}

/// Reads the account's name out of the reply to the profile read.
pub fn username_from(reply: &ProviderReply) -> (username: Option<String>)
    ensures
        username.deep_view() == username_of(reply@),
{
    match reply {
        ProviderReply::Unreachable { .. } => None,
        ProviderReply::Unreadable { .. } => None,
        ProviderReply::Answered { body, .. } => match parse(body.as_slice()) {
            Ok(json) => username_from_json(&json),
            Err(_) => None,
        },
    }
}

/// Reads the primary address out of the reply to the email read.
pub fn primary_email_from(reply: &ProviderReply) -> (email: Option<String>)
    ensures
        email.deep_view() == primary_email_of(reply@),
{
    match reply {
        ProviderReply::Unreachable { .. } => None,
        ProviderReply::Unreadable { .. } => None,
        ProviderReply::Answered { body, .. } => match parse(body.as_slice()) {
            Ok(json) => primary_email_from_json(&json),
            Err(_) => None,
        },
    }
}

/// Puts together what the two reads gave. It always yields an identity: a
/// read that failed, or a document without the field, leaves that part absent
/// and the other part as it is.
pub fn resolve(profile: &ProviderReply, emails: &ProviderReply) -> (identity: Identity)
    ensures
        identity@ == (IdentityView {
            username: username_of(profile@),
            primary_email: primary_email_of(emails@),
        }),
{
    Identity { username: username_from(profile), primary_email: primary_email_from(emails) }
}

} // verus!
