//! Identity payloads of each provider and their normalization into one
//! canonical user identity.

use vstd::prelude::*;

use crate::error::AuthError;
use crate::message::{message_of, Message};
use crate::provider::OauthProvider;
use crate::user_registration::{registration_of, UserRegistration};
use crate::project_id::{hyphenated_text, ProjectId};
use crate::text::{decimal_text, opt_view, u32_text};

verus! {

/// The provider-agnostic identity of a user, as text.
pub struct IdentityView {
    pub subject: Seq<char>,
    pub provider: OauthProvider,
    pub email: Option<Seq<char>>,
    pub username: Option<Seq<char>>,
}

/// The identity a provider gives: its own id for the user, and the provider.
#[derive(Debug, Clone, PartialEq, Eq)]
pub struct ProviderId {
    pub id: String,
    pub provider: OauthProvider,
}

/// A user staged from any provider's payload, under a fresh local id.
#[derive(Debug, Clone, PartialEq, Eq)]
pub struct RawUser {
    pub id: [u8; 16],
    pub username: Option<String>,
    pub email: Option<String>,
    pub provider_id: ProviderId,
}

impl Default for ProviderId {
    /// A fresh random identity with the service itself as provider.
    fn default() -> (r: ProviderId)
        ensures
            r.provider == OauthProvider::Luci,
            exists|b: Seq<u8>| b.len() == 16 && r.id@ == hyphenated_text(b),
    {
        let id = ProjectId::from_bytes(fresh_uuid());
        let text = id.to_string();
        proof {
            crate::project_id::lemma_project_id_round_trip(id);
            assert(id@.len() == 16);
        }
        ProviderId { id: text, provider: OauthProvider::Luci }
    }
}

impl Default for RawUser {
    /// A staged user with fresh random ids and nothing else known.
    fn default() -> (r: RawUser)
        ensures
            r.username is None,
            r.email is None,
            r.provider_id.provider == OauthProvider::Luci,
    {
        RawUser { id: fresh_uuid(), username: None, email: None, provider_id: ProviderId::default() }
    }
}

impl RawUser {
    /// The canonical identity the staged user carries.
    pub open spec fn identity(self) -> IdentityView {
        IdentityView {
            subject: self.provider_id.id@,
            provider: self.provider_id.provider,
            email: opt_view(self.email),
            username: opt_view(self.username),
        }
    }
}

/// A registered user: one with both an email and a username.
#[derive(Debug, Clone, PartialEq, Eq)]
pub struct User {
    pub id: [u8; 16],
    pub provider_id: ProviderId,
    pub email: String,
    pub username: String,
    /// Seconds since the Unix epoch.
    pub created_on: i64,
}

/// Relies on `chrono::Utc::now`: the current time in seconds since the
/// Unix epoch; nothing is known of its value.
#[verifier::external_body]
fn now_seconds() -> (r: i64) {
    chrono::Utc::now().timestamp()
}

impl User {
    /// A user from a staged one that has both an email and a username,
    /// created now.
    pub fn from_raw_now(input: RawUser) -> (r: User)
        requires
            input.email is Some,
            input.username is Some,
        ensures
            r.id == input.id,
            r.provider_id == input.provider_id,
            Some(r.email@) == opt_view(input.email),
            Some(r.username@) == opt_view(input.username),
    {
        let now = now_seconds();
        User::from_raw(input, now)
    }

    /// A user from a staged one that has both an email and a username.
    pub fn from_raw(input: RawUser, created_on: i64) -> (r: User)
        requires
            input.email is Some,
            input.username is Some,
        ensures
            r.id == input.id,
            r.provider_id == input.provider_id,
            Some(r.email@) == opt_view(input.email),
            Some(r.username@) == opt_view(input.username),
            r.created_on == created_on,
    {
        User {
            id: input.id,
            provider_id: input.provider_id,
            email: input.email.unwrap(),
            username: input.username.unwrap(),
            created_on,
        }
    }
}

/// Google's user-info payload.
#[derive(Debug, Clone)]
pub struct RawFromGoogle {
    pub id: String,
    pub provider: OauthProvider,
    pub email: String,
    pub verified_email: bool,
    pub given_name: Option<String>,
    pub family_name: Option<String>,
    pub locale: Option<String>,
}

/// Azure's (Microsoft Graph) user payload.
#[derive(Debug, Clone)]
pub struct RawFromAzure {
    pub id: String,
    pub provider: OauthProvider,
    pub mail: Option<String>,
    pub user_principal_name: Option<String>,
    pub display_name: Option<String>,
    pub given_name: Option<String>,
    pub family_name: Option<String>,
}

/// Twitter's payload: the user nested under `data`.
#[derive(Debug, Clone)]
pub struct RawFromTwitter {
    pub data: FromTwitter,
}

#[derive(Debug, Clone)]
pub struct FromTwitter {
    pub id: String,
    pub provider: OauthProvider,
    pub username: String,
    pub name: Option<String>,
}

/// LinkedIn's user payload.
#[derive(Debug, Clone)]
pub struct RawFromLinkedIn {
    pub id: String,
    pub provider: OauthProvider,
    pub username: String,
    pub name: Option<String>,
}

/// GitHub's user payload; its id is a number.
#[derive(Debug, Clone)]
pub struct RawFromGithub {
    pub id: u32,
    pub provider: OauthProvider,
    pub email: String,
    pub login: String,
    pub name: Option<String>,
    pub location: Option<String>,
}

/// Discord's user payload.
#[derive(Debug, Clone)]
pub struct RawFromDiscord {
    pub id: String,
    pub provider: OauthProvider,
    pub email: String,
    pub username: String,
    pub verified: bool,
    pub locale: String,
    pub name: Option<String>,
}

/// The service's own user payload; its id is a number.
#[derive(Debug, Clone)]
pub struct RawFromLuci {
    pub id: u32,
    pub provider: OauthProvider,
    pub email: String,
    pub username: String,
    pub name: Option<String>,
}

/// A payload of any supported identity provider.
#[derive(Debug, Clone)]
pub enum RawIdentity {
    Google(RawFromGoogle),
    Azure(RawFromAzure),
    Twitter(RawFromTwitter),
    LinkedIn(RawFromLinkedIn),
    Github(RawFromGithub),
    Discord(RawFromDiscord),
    Luci(RawFromLuci),
}

/// An email as a provider that sends the empty text for "none" means it.
pub open spec fn maybe_email(s: Seq<char>) -> Option<Seq<char>> {
    message_of(s)
}

/// The canonical identity of each provider's payload.
pub open spec fn canonical_identity(raw: RawIdentity) -> IdentityView {
    match raw {
        RawIdentity::Google(g) => IdentityView {
            subject: g.id@,
            provider: g.provider,
            email: Some(g.email@),
            username: None,
        },
        RawIdentity::Azure(a) => IdentityView {
            subject: a.id@,
            provider: a.provider,
            email: opt_view(a.mail),
            username: opt_view(a.display_name),
        },
        RawIdentity::Twitter(t) => IdentityView {
            subject: t.data.id@,
            provider: t.data.provider,
            email: None,
            username: Some(t.data.username@),
        },
        RawIdentity::LinkedIn(l) => IdentityView {
            subject: l.id@,
            provider: l.provider,
            email: None,
            username: Some(l.username@),
        },
        RawIdentity::Github(g) => IdentityView {
            subject: decimal_text(g.id as nat),
            provider: g.provider,
            email: maybe_email(g.email@),
            username: Some(g.login@),
        },
        RawIdentity::Discord(d) => IdentityView {
            subject: d.id@,
            provider: d.provider,
            email: maybe_email(d.email@),
            username: Some(d.username@),
        },
        RawIdentity::Luci(l) => IdentityView {
            subject: decimal_text(l.id as nat),
            provider: l.provider,
            email: Some(l.email@),
            username: Some(l.username@),
        },
    }
}

/// An email from a provider that sends the empty text for "none".
pub fn set_maybe_email(input: &String) -> (r: Option<String>)
    ensures
        opt_view(r) == maybe_email(input@),
{
    if input.as_str().is_empty() {
        None
    } else {
        Some(input.clone())
    }
}

/// Relies on `uuid::Uuid::new_v4`: a random identifier; nothing is known of
/// its bytes.
#[verifier::external_body]
fn fresh_uuid() -> (r: [u8; 16]) {
    *uuid::Uuid::new_v4().as_bytes()
}

impl RawIdentity {
    /// Normalizes the payload under the given local id.
    pub fn normalize_with_id(self, id: [u8; 16]) -> (r: RawUser)
        ensures
            r.identity() == canonical_identity(self),
            r.id == id,
    {
        match self {
            RawIdentity::Google(g) => RawUser {
                id,
                provider_id: ProviderId { id: g.id, provider: g.provider },
                email: Some(g.email),
                username: None,
            },
            RawIdentity::Azure(a) => RawUser {
                id,
                provider_id: ProviderId { id: a.id, provider: a.provider },
                email: a.mail,
                username: a.display_name,
            },
            RawIdentity::Twitter(t) => RawUser {
                id,
                provider_id: ProviderId { id: t.data.id, provider: t.data.provider },
                email: None,
                username: Some(t.data.username),
            },
            RawIdentity::LinkedIn(l) => RawUser {
                id,
                provider_id: ProviderId { id: l.id, provider: l.provider },
                email: None,
                username: Some(l.username),
            },
            RawIdentity::Github(g) => {
                let email = set_maybe_email(&g.email);
                RawUser {
                    id,
                    provider_id: ProviderId { id: u32_text(g.id), provider: g.provider },
                    email,
                    username: Some(g.login),
                }
            },
            RawIdentity::Discord(d) => {
                let email = set_maybe_email(&d.email);
                RawUser {
                    id,
                    provider_id: ProviderId { id: d.id, provider: d.provider },
                    email,
                    username: Some(d.username),
                }
            },
            RawIdentity::Luci(l) => RawUser {
                id,
                provider_id: ProviderId { id: u32_text(l.id), provider: l.provider },
                email: Some(l.email),
                username: Some(l.username),
            },
        }
    }

    /// Normalizes the payload under a fresh random local id.
    pub fn normalize(self) -> (r: RawUser)
        ensures
            r.identity() == canonical_identity(self),
    {
        let id = fresh_uuid();
        self.normalize_with_id(id)
    }
}

/// The identity payload shapes that the login flow reads.
#[derive(Clone, Copy, Debug, PartialEq, Eq, Structural)]
pub enum IdentityShape {
    Google,
    Azure,
    Twitter,
    LinkedIn,
    Github,
    Discord,
}

/// The payload shape each identity provider answers with; the others have
/// none that the login flow reads.
pub open spec fn spec_identity_shape(p: OauthProvider) -> Option<IdentityShape> {
    match p {
        OauthProvider::Google => Some(IdentityShape::Google),
        OauthProvider::Azure => Some(IdentityShape::Azure),
        OauthProvider::Twitter => Some(IdentityShape::Twitter),
        OauthProvider::LinkedIn => Some(IdentityShape::LinkedIn),
        OauthProvider::Github => Some(IdentityShape::Github),
        OauthProvider::Discord => Some(IdentityShape::Discord),
        _ => None,
    }
}

/// The payload shape to read for `provider`; an unsupported provider for
/// those without one.
pub fn identity_shape(provider: OauthProvider) -> (r: Result<IdentityShape, AuthError>)
    ensures
        r is Ok <==> spec_identity_shape(provider) is Some,
        r is Ok ==> Some(r->Ok_0) == spec_identity_shape(provider),
        r is Err ==> r->Err_0 is UnsupportedProvider,
{
    match provider {
        OauthProvider::Google => Ok(IdentityShape::Google),
        OauthProvider::Azure => Ok(IdentityShape::Azure),
        OauthProvider::Twitter => Ok(IdentityShape::Twitter),
        OauthProvider::LinkedIn => Ok(IdentityShape::LinkedIn),
        OauthProvider::Github => Ok(IdentityShape::Github),
        OauthProvider::Discord => Ok(IdentityShape::Discord),
        _ => Err(AuthError::UnsupportedProvider(Message::from_str("Missing user instance"))),
    }
}

/// Normalizing one payload twice yields the same canonical output: the
/// registrations built from two runs agree field for field, whatever local
/// id each run drew.
pub proof fn lemma_normalize_twice(
    raw: RawIdentity,
    first: RawUser,
    second: RawUser,
    first_reg: UserRegistration,
    second_reg: UserRegistration,
)
    requires
        first.identity() == canonical_identity(raw),
        second.identity() == canonical_identity(raw),
        registration_of(first_reg, first.identity()),
        registration_of(second_reg, second.identity()),
    ensures
        first_reg.auth_agent == second_reg.auth_agent,
        first_reg.auth_id@ == second_reg.auth_id@,
        opt_view(first_reg.email) == opt_view(second_reg.email),
{
}

/// No supplied field is dropped: the subject is the provider's id (in
/// decimal where it is a number), a nonempty email the provider sends is
/// kept, and so is any username it sends.
pub proof fn lemma_supplied_fields_kept(raw: RawIdentity)
    ensures
        match raw {
            RawIdentity::Google(g) => canonical_identity(raw).subject == g.id@
                && canonical_identity(raw).email == Some(g.email@),
            RawIdentity::Azure(a) => canonical_identity(raw).subject == a.id@
                && canonical_identity(raw).email == opt_view(a.mail)
                && canonical_identity(raw).username == opt_view(a.display_name),
            RawIdentity::Twitter(t) => canonical_identity(raw).subject == t.data.id@
                && canonical_identity(raw).username == Some(t.data.username@),
            RawIdentity::LinkedIn(l) => canonical_identity(raw).subject == l.id@
                && canonical_identity(raw).username == Some(l.username@),
            RawIdentity::Github(g) => canonical_identity(raw).subject == decimal_text(g.id as nat)
                && (g.email@.len() > 0 ==> canonical_identity(raw).email == Some(g.email@))
                && canonical_identity(raw).username == Some(g.login@),
            RawIdentity::Discord(d) => canonical_identity(raw).subject == d.id@
                && (d.email@.len() > 0 ==> canonical_identity(raw).email == Some(d.email@))
                && canonical_identity(raw).username == Some(d.username@),
            RawIdentity::Luci(l) => canonical_identity(raw).subject == decimal_text(l.id as nat)
                && canonical_identity(raw).email == Some(l.email@)
                && canonical_identity(raw).username == Some(l.username@),
        },
{
}

} // verus!
