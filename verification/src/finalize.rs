//! Finishing a login once a token is granted and the identity resolved.
//!
//! The configuration store belongs to the caller. The caller takes its write
//! lock, lets [`StoredCredential::record_login`] write the credential, saves,
//! and hands the outcome of the save to [`finalize`], which says what is left
//! to do. After a failed save that is nothing: the failure is reported, the
//! credential that was written stays written, and nobody is told of the login.

use crate::identity::{Identity, IdentityView};
use crate::text::copy_text;
use vstd::prelude::*;

verus! {

/// The name of the event that tells the analytics who has logged in.
pub const IDENTIFY_EVENT: &'static str = "$identify";

/// What a finished login answers.
pub const LOGIN_SUCCESSFUL: &'static str = "GitHub login successful";

/// What a login answers when the credential could not be saved.
pub const SAVE_FAILED: &'static str = "Failed to save config";

/// The part of the configuration that holds the GitHub login.
#[derive(Clone, Debug, PartialEq, Eq)]
pub struct StoredCredential {
    pub token: Option<String>,
    pub username: Option<String>,
    pub primary_email: Option<String>,
    /// Whether the user has been through the login step.
    pub login_acknowledged: bool,
}

/// A stored login, by the text of its parts.
pub struct CredentialView {
    pub token: Option<Seq<char>>,
    pub username: Option<Seq<char>>,
    pub primary_email: Option<Seq<char>>,
    pub login_acknowledged: bool,
}

impl View for StoredCredential {
    type V = CredentialView;

    open spec fn view(&self) -> CredentialView {
        CredentialView {
            token: self.token.deep_view(),
            username: self.username.deep_view(),
            primary_email: self.primary_email.deep_view(),
            login_acknowledged: self.login_acknowledged,
        }
    }
}

/// Why a login was not finished.
#[derive(Clone, Copy, Debug, PartialEq, Eq, Structural)]
pub enum FinalizeError {
    /// The store could not save the credential.
    PersistenceFailed,
}

impl FinalizeError {
    /// The sentence that reports the error to the user.
    pub fn message(&self) -> (text: String)
        ensures
            text@ == SAVE_FAILED@,
    {
        SAVE_FAILED.to_owned()
    }
}

/// An event for the analytics: its name, and a flat set of attributes.
#[derive(Clone, Debug, PartialEq, Eq)]
pub struct IdentifyEvent {
    pub name: String,
    pub properties: Vec<(String, String)>,
}

/// An event, by the text of its name and of its attributes.
pub struct EventView {
    pub name: Seq<char>,
    pub properties: Seq<(Seq<char>, Seq<char>)>,
}

impl View for IdentifyEvent {
    type V = EventView;

    open spec fn view(&self) -> EventView {
        EventView { name: self.name@, properties: self.properties.deep_view() }
    }
}

/// Something that the caller does after a login is saved. None of it can fail
/// the login: what goes wrong in a follow-up stays with the caller.
#[derive(Clone, Debug, PartialEq, Eq)]
pub enum FollowUp {
    /// Refresh the diagnostic context, so that reports name the new user.
    RefreshDiagnostics,
    /// Emit this event to the analytics.
    Identify { event: IdentifyEvent },
}

/// A follow-up, with its event by the text of its parts.
pub enum FollowUpView {
    RefreshDiagnostics,
    Identify { event: EventView },
}

impl View for FollowUp {
    type V = FollowUpView;

    open spec fn view(&self) -> FollowUpView {
        match self {
            FollowUp::RefreshDiagnostics => FollowUpView::RefreshDiagnostics,
            FollowUp::Identify { event } => FollowUpView::Identify { event: event@ },
        }
    }
}

/// The views of a list of follow-ups, in order.
pub open spec fn follow_ups_view(follow_ups: Seq<FollowUp>) -> Seq<FollowUpView> {
    follow_ups.map_values(|follow_up: FollowUp| follow_up@)
}

/// The credential after a login: the token, what was resolved of the
/// identity, and the login step acknowledged.
pub open spec fn credential_of(access_token: Seq<char>, identity: IdentityView) -> CredentialView {
    CredentialView {
        token: Some(access_token),
        username: identity.username,
        primary_email: identity.primary_email,
        login_acknowledged: true,
    }
}

/// The attributes of the identify event: the name under `username` and the
/// address under `email`, each only where it is known.
pub open spec fn identify_properties(identity: IdentityView) -> Seq<(Seq<char>, Seq<char>)> {
    let named: Seq<(Seq<char>, Seq<char>)> = match identity.username {
        Some(username) => seq![("username"@, username)],
        None => seq![],
    };
    let addressed: Seq<(Seq<char>, Seq<char>)> = match identity.primary_email {
        Some(email) => seq![("email"@, email)],
        None => seq![],
    };
    named + addressed
}

/// The event that tells the analytics who has logged in.
pub open spec fn identify_event_of(identity: IdentityView) -> EventView {
    EventView { name: IDENTIFY_EVENT@, properties: identify_properties(identity) }
}

/// How a login finishes. If the credential was saved, two things are left to
/// do, in this order: refresh the diagnostic context, and emit the identify
/// event. If it was not, the login has failed to persist.
pub open spec fn finalize_of(saved: bool, identity: IdentityView) -> Result<
    Seq<FollowUpView>,
    FinalizeError,
> {
    if saved {
        Ok(
            seq![
                FollowUpView::RefreshDiagnostics,
                FollowUpView::Identify { event: identify_event_of(identity) },
            ],
        )
    } else {
        Err(FinalizeError::PersistenceFailed)
    }
}

impl StoredCredential {
    /// A store in which nobody has logged in.
    pub fn new() -> (credential: StoredCredential)
        ensures
            credential@ == (CredentialView {
                token: None,
                username: None,
                primary_email: None,
                login_acknowledged: false,
            }),
    {
        StoredCredential {
            token: None,
            username: None,
            primary_email: None,
            login_acknowledged: false,
        }
    }

    /// Writes a login into the store: the token, the identity as far as it is
    /// known, and the acknowledgement. Whatever the store held of an earlier
    /// login is gone, also a name or address that the new identity lacks.
    pub fn record_login(&mut self, access_token: &str, identity: &Identity)
        ensures
            final(self)@ == credential_of(access_token@, identity@),
    {
        self.username = copy_text(&identity.username);
        self.primary_email = copy_text(&identity.primary_email);
        self.token = Some(access_token.to_owned());
        self.login_acknowledged = true;
    }
}

fn identify_event(identity: &Identity) -> (event: IdentifyEvent)
    ensures
        event@ == identify_event_of(identity@),
{
    let mut properties: Vec<(String, String)> = Vec::new();
    assert(properties.deep_view() =~= seq![]);
    match &identity.username {
        Some(username) => {
            properties.push(("username".to_owned(), username.clone()));
            assert(properties.deep_view() =~= seq![("username"@, username@)]);
        },
        None => {},
    }
    let ghost named = properties.deep_view();
    match &identity.primary_email {
        Some(email) => {
            properties.push(("email".to_owned(), email.clone()));
            assert(properties.deep_view() =~= named + seq![("email"@, email@)]);
        },
        None => {
            assert(properties.deep_view() =~= named + seq![]);
        },
    }
    IdentifyEvent { name: IDENTIFY_EVENT.to_owned(), properties }
}

/// Decides how the login finishes, given whether the store saved the
/// credential. On success it lists what the caller still does, in order. On
/// failure there is nothing to do but to report it.
pub fn finalize(saved: bool, identity: &Identity) -> (r: Result<Vec<FollowUp>, FinalizeError>)
    ensures
        match r {
            Ok(follow_ups) => finalize_of(saved, identity@) == Ok::<
                Seq<FollowUpView>,
                FinalizeError,
            >(follow_ups_view(follow_ups@)),
            Err(error) => finalize_of(saved, identity@) == Err::<Seq<FollowUpView>, FinalizeError>(
                error,
            ),
        },
        r is Ok <==> saved,
{
    if !saved {
        return Err(FinalizeError::PersistenceFailed);
    }
    let mut follow_ups: Vec<FollowUp> = Vec::new();
    follow_ups.push(FollowUp::RefreshDiagnostics);
    follow_ups.push(FollowUp::Identify { event: identify_event(identity) });
    assert(follow_ups_view(follow_ups@) =~= seq![
        FollowUpView::RefreshDiagnostics,
        FollowUpView::Identify { event: identify_event_of(identity@) },
    ]);
    Ok(follow_ups)
}

/// A login whose credential could not be saved ends in the failure to
/// persist, whatever the identity: nothing is left to do, so no diagnostic
/// context is refreshed and no event reaches the analytics.
pub proof fn lemma_failed_save_tells_nobody(identity: IdentityView)
    ensures
        finalize_of(false, identity) == Err::<Seq<FollowUpView>, FinalizeError>(
            FinalizeError::PersistenceFailed,
        ),
{
}

/// A saved login is followed by exactly one refresh and then exactly one
/// event, named `$identify`, also for an identity of which nothing is known.
pub proof fn lemma_saved_login_is_announced_once(identity: IdentityView)
    ensures
        finalize_of(true, identity) matches Ok(follow_ups) && follow_ups.len() == 2
            && follow_ups[0] is RefreshDiagnostics && (follow_ups[1] matches FollowUpView::Identify {
            event,
        } && event.name == IDENTIFY_EVENT@ && event.properties == identify_properties(identity)),
{
}

/// The event carries what is known of the identity and nothing else: the name
/// first, under `username`, then the address, under `email`. An identity of
/// which nothing is known gives an event without attributes.
pub proof fn lemma_event_carries_what_is_known(identity: IdentityView)
    ensures
        identity.username is None && identity.primary_email is None ==> identify_properties(
            identity,
        ) == Seq::<(Seq<char>, Seq<char>)>::empty(),
        identify_properties(identity).len() == (if identity.username is Some {
            1nat
        } else {
            0nat
        }) + (if identity.primary_email is Some {
            1nat
        } else {
            0nat
        }),
        identity.username matches Some(username) ==> identify_properties(identity)[0] == (
            "username"@,
            username,
        ),
        identity.primary_email matches Some(email) ==> identify_properties(identity).last() == (
            "email"@,
            email,
        ),
{
}

} // verus!
