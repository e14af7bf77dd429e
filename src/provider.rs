//! The closed sets of identity and drive providers, and their path names.

use vstd::prelude::*;

use crate::error::AuthError;
use crate::message::{message_of, Message};

verus! {

/// Supported user authentication services.
#[derive(Clone, Copy, Debug, PartialEq, Eq, Hash, Structural)]
pub enum OauthProvider {
    Google,
    Azure,
    Facebook,
    Twitter,
    LinkedIn,
    Github,
    Discord,
    Luci,
    Empty,
}

/// The path segment (and wire name) of each identity provider.
pub open spec fn oauth_path(p: OauthProvider) -> Seq<char> {
    match p {
        OauthProvider::Google => "google"@,
        OauthProvider::Azure => "azure"@,
        OauthProvider::Facebook => "facebook"@,
        OauthProvider::Twitter => "twitter"@,
        OauthProvider::LinkedIn => "linkedIn"@,
        OauthProvider::Github => "github"@,
        OauthProvider::Discord => "discord"@,
        OauthProvider::Luci => "luci"@,
        OauthProvider::Empty => "empty"@,
    }
}

/// The provider named by `s`, if `s` names one that can be asked for.
pub open spec fn oauth_named(s: Seq<char>) -> Option<OauthProvider> {
    if s == "google"@ {
        Some(OauthProvider::Google)
    } else if s == "azure"@ {
        Some(OauthProvider::Azure)
    } else if s == "facebook"@ {
        Some(OauthProvider::Facebook)
    } else if s == "twitter"@ {
        Some(OauthProvider::Twitter)
    } else if s == "linkedIn"@ {
        Some(OauthProvider::LinkedIn)
    } else if s == "github"@ {
        Some(OauthProvider::Github)
    } else if s == "discord"@ {
        Some(OauthProvider::Discord)
    } else if s == "luci"@ {
        Some(OauthProvider::Luci)
    } else {
        None
    }
}

impl OauthProvider {
    pub fn to_path(&self) -> (r: &'static str)
        ensures
            r@ == oauth_path(*self),
    {
        match self {
            OauthProvider::Google => "google",
            OauthProvider::Azure => "azure",
            OauthProvider::Facebook => "facebook",
            OauthProvider::Twitter => "twitter",
            OauthProvider::LinkedIn => "linkedIn",
            OauthProvider::Github => "github",
            OauthProvider::Discord => "discord",
            OauthProvider::Luci => "luci",
            OauthProvider::Empty => "empty",
        }
    }

    /// Reads a provider from its path name; any other text is an
    /// unsupported provider, reported with the text itself.
    pub fn from_str(input: &str) -> (r: Result<OauthProvider, AuthError>)
        ensures
            r is Ok <==> oauth_named(input@) is Some,
            r is Ok ==> Some(r->Ok_0) == oauth_named(input@),
            r is Err ==> r->Err_0 is UnsupportedProvider && r->Err_0.detail() == message_of(input@),
    {
        match OauthProvider::lookup(input) {
            Some(p) => Ok(p),
            None => Err(AuthError::UnsupportedProvider(Message::from_str(input))),
        }
    }

    /// Reads a provider from its path name, `Empty` for any other text.
    pub fn from_name(input: &str) -> (r: OauthProvider)
        ensures
            r == (match oauth_named(input@) {
                Some(p) => p,
                None => OauthProvider::Empty,
            }),
    {
        match OauthProvider::lookup(input) {
            Some(p) => p,
            None => OauthProvider::Empty,
        }
    }

    /// The provider named by `input`, if any.
    pub fn lookup(input: &str) -> (r: Option<OauthProvider>)
        ensures
            r == oauth_named(input@),
    {
        if str_eq(input, "google") {
            Some(OauthProvider::Google)
        } else if str_eq(input, "azure") {
            Some(OauthProvider::Azure)
        } else if str_eq(input, "facebook") {
            Some(OauthProvider::Facebook)
        } else if str_eq(input, "twitter") {
            Some(OauthProvider::Twitter)
        } else if str_eq(input, "linkedIn") {
            Some(OauthProvider::LinkedIn)
        } else if str_eq(input, "github") {
            Some(OauthProvider::Github)
        } else if str_eq(input, "discord") {
            Some(OauthProvider::Discord)
        } else if str_eq(input, "luci") {
            Some(OauthProvider::Luci)
        } else {
            None
        }
    }

    pub fn google() -> (r: Self)
        ensures
            r == OauthProvider::Google,
    {
        OauthProvider::Google
    }

    pub fn azure() -> (r: Self)
        ensures
            r == OauthProvider::Azure,
    {
        OauthProvider::Azure
    }

    pub fn facebook() -> (r: Self)
        ensures
            r == OauthProvider::Facebook,
    {
        OauthProvider::Facebook
    }

    pub fn twitter() -> (r: Self)
        ensures
            r == OauthProvider::Twitter,
    {
        OauthProvider::Twitter
    }

    pub fn linked_in() -> (r: Self)
        ensures
            r == OauthProvider::LinkedIn,
    {
        OauthProvider::LinkedIn
    }

    pub fn github() -> (r: Self)
        ensures
            r == OauthProvider::Github,
    {
        OauthProvider::Github
    }

    pub fn discord() -> (r: Self)
        ensures
            r == OauthProvider::Discord,
    {
        OauthProvider::Discord
    }

    pub fn luci() -> (r: Self)
        ensures
            r == OauthProvider::Luci,
    {
        OauthProvider::Luci
    }
}

/// Supported sources of data files.
#[derive(Clone, Copy, Debug, PartialEq, Eq, Hash, Structural)]
pub enum DriveProvider {
    Google,
    MSGraph,
    DropBox,
    /// The user's local drive.
    User,
    /// A drive hosted by the service itself.
    Luci,
    Empty,
}

/// The path segment of each drive provider; those without a remote
/// listing share the name `empty`.
pub open spec fn drive_path(p: DriveProvider) -> Seq<char> {
    match p {
        DriveProvider::Google => "google"@,
        DriveProvider::MSGraph => "msgraph"@,
        DriveProvider::DropBox => "dropbox"@,
        _ => "empty"@,
    }
}

/// The drive provider named by `s`, if any.
pub open spec fn drive_named(s: Seq<char>) -> Option<DriveProvider> {
    if s == "google"@ {
        Some(DriveProvider::Google)
    } else if s == "msgraph"@ {
        Some(DriveProvider::MSGraph)
    } else if s == "dropbox"@ {
        Some(DriveProvider::DropBox)
    } else if s == "user"@ {
        Some(DriveProvider::User)
    } else if s == "luci"@ {
        Some(DriveProvider::Luci)
    } else if s == "empty"@ {
        Some(DriveProvider::Empty)
    } else {
        None
    }
}

impl DriveProvider {
    pub fn to_path(&self) -> (r: &'static str)
        ensures
            r@ == drive_path(*self),
    {
        match self {
            DriveProvider::Google => "google",
            DriveProvider::MSGraph => "msgraph",
            DriveProvider::DropBox => "dropbox",
            _ => "empty",
        }
    }

    /// The drive provider named by `input`, if any.
    pub fn lookup(input: &str) -> (r: Option<DriveProvider>)
        ensures
            r == drive_named(input@),
    {
        if str_eq(input, "google") {
            Some(DriveProvider::Google)
        } else if str_eq(input, "msgraph") {
            Some(DriveProvider::MSGraph)
        } else if str_eq(input, "dropbox") {
            Some(DriveProvider::DropBox)
        } else if str_eq(input, "user") {
            Some(DriveProvider::User)
        } else if str_eq(input, "luci") {
            Some(DriveProvider::Luci)
        } else if str_eq(input, "empty") {
            Some(DriveProvider::Empty)
        } else {
            None
        }
    }

    /// Reads a drive provider from its name; any other text is an
    /// unsupported provider, reported with the text itself.
    pub fn from_str(input: &str) -> (r: Result<DriveProvider, AuthError>)
        ensures
            r is Ok <==> drive_named(input@) is Some,
            r is Ok ==> Some(r->Ok_0) == drive_named(input@),
            r is Err ==> r->Err_0 is UnsupportedProvider && r->Err_0.detail() == message_of(input@),
    {
        match DriveProvider::lookup(input) {
            Some(p) => Ok(p),
            None => Err(AuthError::UnsupportedProvider(Message::from_str(input))),
        }
    }

    /// Reads a drive provider from its name, `Empty` for any other text.
    pub fn from_name(input: &str) -> (r: DriveProvider)
        ensures
            r == (match drive_named(input@) {
                Some(p) => p,
                None => DriveProvider::Empty,
            }),
    {
        match DriveProvider::lookup(input) {
            Some(p) => p,
            None => DriveProvider::Empty,
        }
    }

    pub fn google() -> (r: Self)
        ensures
            r == DriveProvider::Google,
    {
        DriveProvider::Google
    }

    pub fn msgraph() -> (r: Self)
        ensures
            r == DriveProvider::MSGraph,
    {
        DriveProvider::MSGraph
    }

    pub fn dropbox() -> (r: Self)
        ensures
            r == DriveProvider::DropBox,
    {
        DriveProvider::DropBox
    }

    pub fn user() -> (r: Self)
        ensures
            r == DriveProvider::User,
    {
        DriveProvider::User
    }

    pub fn luci() -> (r: Self)
        ensures
            r == DriveProvider::Luci,
    {
        DriveProvider::Luci
    }
}

/// The shape of a file listing, by drive provider.
#[derive(Clone, Copy, Debug, PartialEq, Eq, Structural)]
pub enum Kind {
    Google,
    MSGraph,
    DropBox,
    Empty,
}

pub open spec fn kind_of(p: DriveProvider) -> Kind {
    match p {
        DriveProvider::Google => Kind::Google,
        DriveProvider::MSGraph => Kind::MSGraph,
        DriveProvider::DropBox => Kind::DropBox,
        _ => Kind::Empty,
    }
}

impl Kind {
    pub fn from_provider(provider: DriveProvider) -> (r: Kind)
        ensures
            r == kind_of(provider),
    {
        match provider {
            DriveProvider::Google => Kind::Google,
            DriveProvider::MSGraph => Kind::MSGraph,
            DriveProvider::DropBox => Kind::DropBox,
            _ => Kind::Empty,
        }
    }
}

impl Default for OauthProvider {
    fn default() -> (r: OauthProvider)
        ensures
            r == OauthProvider::Empty,
    {
        OauthProvider::Empty
    }
}

impl Default for DriveProvider {
    fn default() -> (r: DriveProvider)
        ensures
            r == DriveProvider::Empty,
    {
        DriveProvider::Empty
    }
}

impl Default for Kind {
    fn default() -> (r: Kind)
        ensures
            r == Kind::Empty,
    {
        Kind::Empty
    }
}

/// The display name of each identity provider: its variant's name.
pub open spec fn oauth_display(p: OauthProvider) -> Seq<char> {
    match p {
        OauthProvider::Google => "Google"@,
        OauthProvider::Azure => "Azure"@,
        OauthProvider::Facebook => "Facebook"@,
        OauthProvider::Twitter => "Twitter"@,
        OauthProvider::LinkedIn => "LinkedIn"@,
        OauthProvider::Github => "Github"@,
        OauthProvider::Discord => "Discord"@,
        OauthProvider::Luci => "Luci"@,
        OauthProvider::Empty => "Empty"@,
    }
}

impl OauthProvider {
    pub fn display_name(&self) -> (r: &'static str)
        ensures
            r@ == oauth_display(*self),
    {
        match self {
            OauthProvider::Google => "Google",
            OauthProvider::Azure => "Azure",
            OauthProvider::Facebook => "Facebook",
            OauthProvider::Twitter => "Twitter",
            OauthProvider::LinkedIn => "LinkedIn",
            OauthProvider::Github => "Github",
            OauthProvider::Discord => "Discord",
            OauthProvider::Luci => "Luci",
            OauthProvider::Empty => "Empty",
        }
    }
}

/// A redirect that restarts the login flow with the same provider.
#[derive(Debug, Clone, PartialEq, Eq)]
pub struct AuthFailedRedirect {
    pub uri: String,
}

impl AuthFailedRedirect {
    /// The redirect to `/auth/` followed by the provider's display name.
    pub fn new(provider: &OauthProvider) -> (r: AuthFailedRedirect)
        ensures
            r.uri@ == "/auth/"@ + oauth_display(*provider),
    {
        let base = "/auth/".to_owned();
        AuthFailedRedirect { uri: base.concat(provider.display_name()) }
    }
}

/// Character-wise equality of two strings.
pub fn str_eq(a: &str, b: &str) -> (r: bool)
    ensures
        r == (a@ == b@),
{
    let n = a.unicode_len();
    if n != b.unicode_len() {
        return false;
    }
    let mut i: usize = 0;
    while i < n
        invariant
            n == a@.len(),
            n == b@.len(),
            i <= n,
            forall|j: int| 0 <= j < i ==> a@[j] == b@[j],
        decreases n - i,
    {
        if a.get_char(i) != b.get_char(i) {
            return false;
        }
        i = i + 1;
    }
    assert(a@ =~= b@);
    true
}

} // verus!
