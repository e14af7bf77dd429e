//! The provider registry: one ready client entry per configured provider,
//! built once from a settings snapshot and read-only afterwards.

use vstd::prelude::*;

use crate::error::AuthError;
use crate::message::Message;
use crate::provider::{drive_path, oauth_path, DriveProvider, OauthProvider};
use crate::text::{clone_opt, clone_strings, opt_view, parses_as_url, url_parses, views};

verus! {

/// An identity provider's settings.
#[derive(Debug, Clone)]
pub struct OauthServer {
    pub auth_url: String,
    pub token_url: String,
    pub client_id: String,
    pub client_secret: String,
    pub identity_server: String,
    pub revocation_url: Option<String>,
    pub scope: String,
}

/// How a drive provider's file listing is requested, as configured.
#[derive(Debug, Clone)]
pub struct FilesRequestConfig {
    pub method: Option<String>,
    pub drive_server: String,
    pub endpoint: String,
    pub query_ls: String,
    pub query_read: Option<String>,
    pub json_body_ls: Option<String>,
}

/// A drive provider's settings.
#[derive(Debug, Clone)]
pub struct DriveServer {
    pub auth_uri: String,
    pub token_uri: String,
    pub client_id: String,
    pub client_secret: String,
    pub project_id: Option<String>,
    pub scopes: Vec<String>,
    pub files_request: FilesRequestConfig,
}

/// The credentials and endpoints of one OAuth client.
#[derive(Debug, Clone)]
pub struct ClientConfig {
    pub client_id: String,
    pub client_secret: String,
    pub auth_url: String,
    pub token_url: String,
    pub redirect_url: String,
}

/// A ready identity client, with what the flow needs besides.
#[derive(Debug, Clone)]
pub struct OauthClient {
    pub client: ClientConfig,
    pub scope: String,
    pub identity_server: String,
}

/// How a drive provider's file listing is requested.
#[derive(Debug, Clone)]
pub struct FilesRequest {
    pub method: String,
    pub drive_server: String,
    pub endpoint: String,
    pub query_ls: String,
    pub query_read: Option<String>,
    pub json_body_ls: Option<String>,
}

/// A ready drive client, with its scopes and listing request.
#[derive(Debug, Clone)]
pub struct DriveClient {
    pub client: ClientConfig,
    pub scopes: Vec<String>,
    pub files_request: FilesRequest,
}

/// The identity clients, by provider.
#[derive(Debug, Clone)]
pub struct OauthClients {
    pub entries: Vec<(OauthProvider, OauthClient)>,
}

/// The drive clients, by provider.
#[derive(Debug, Clone)]
pub struct DriveClients {
    pub entries: Vec<(DriveProvider, DriveClient)>,
}

/// The first identity client registered for `p`.
pub open spec fn find_oauth(s: Seq<(OauthProvider, OauthClient)>, p: OauthProvider) -> Option<
    OauthClient,
>
    decreases s.len(),
{
    if s.len() == 0 {
        None
    } else if s[0].0 == p {
        Some(s[0].1)
    } else {
        find_oauth(s.drop_first(), p)
    }
}

/// The first drive client registered for `p`.
pub open spec fn find_drive(s: Seq<(DriveProvider, DriveClient)>, p: DriveProvider) -> Option<
    DriveClient,
>
    decreases s.len(),
{
    if s.len() == 0 {
        None
    } else if s[0].0 == p {
        Some(s[0].1)
    } else {
        find_drive(s.drop_first(), p)
    }
}

/// The redirect URI of a provider: the callback base, a slash, its path.
pub open spec fn redirect_of(endpoint: Seq<char>, path: Seq<char>) -> Seq<char> {
    endpoint + "/"@ + path
}

/// Whether a client entry holds exactly the given credentials and endpoints.
pub open spec fn client_built(
    c: ClientConfig,
    client_id: Seq<char>,
    client_secret: Seq<char>,
    auth_url: Seq<char>,
    token_url: Seq<char>,
    redirect_url: Seq<char>,
) -> bool {
    &&& c.client_id@ == client_id
    &&& c.client_secret@ == client_secret
    &&& c.auth_url@ == auth_url
    &&& c.token_url@ == token_url
    &&& c.redirect_url@ == redirect_url
}

/// Whether every endpoint of an identity provider's entry is a valid URL.
pub open spec fn oauth_urls_valid(endpoint: Seq<char>, p: OauthProvider, s: OauthServer) -> bool {
    &&& parses_as_url(s.auth_url@)
    &&& parses_as_url(s.token_url@)
    &&& parses_as_url(redirect_of(endpoint, oauth_path(p)))
}

/// Whether every endpoint of a drive provider's entry is a valid URL.
pub open spec fn drive_urls_valid(endpoint: Seq<char>, p: DriveProvider, s: DriveServer) -> bool {
    &&& parses_as_url(s.auth_uri@)
    &&& parses_as_url(s.token_uri@)
    &&& parses_as_url(redirect_of(endpoint, drive_path(p)))
}

/// Whether `c` is the identity client built from `s` for provider `p`.
pub open spec fn oauth_client_of(c: OauthClient, endpoint: Seq<char>, p: OauthProvider, s: OauthServer) -> bool {
    &&& client_built(
        c.client,
        s.client_id@,
        s.client_secret@,
        s.auth_url@,
        s.token_url@,
        redirect_of(endpoint, oauth_path(p)),
    )
    &&& c.scope@ == s.scope@
    &&& c.identity_server@ == s.identity_server@
}

/// Whether `c` is the drive client built from `s` for provider `p`; an
/// unset listing method is `post`.
pub open spec fn drive_client_of(c: DriveClient, endpoint: Seq<char>, p: DriveProvider, s: DriveServer) -> bool {
    &&& client_built(
        c.client,
        s.client_id@,
        s.client_secret@,
        s.auth_uri@,
        s.token_uri@,
        redirect_of(endpoint, drive_path(p)),
    )
    &&& views(c.scopes@) == views(s.scopes@)
    &&& c.files_request.method@ == match s.files_request.method {
        Some(m) => m@,
        None => "post"@,
    }
    &&& c.files_request.drive_server@ == s.files_request.drive_server@
    &&& c.files_request.endpoint@ == s.files_request.endpoint@
    &&& c.files_request.query_ls@ == s.files_request.query_ls@
    &&& opt_view(c.files_request.query_read) == opt_view(s.files_request.query_read)
    &&& opt_view(c.files_request.json_body_ls) == opt_view(s.files_request.json_body_ls)
}

/// The redirect URI of a provider's client.
fn redirect_uri(endpoint: &str, path: &str) -> (r: String)
    ensures
        r@ == redirect_of(endpoint@, path@),
{
    let base = endpoint.to_owned();
    let with_slash = base.concat("/");
    with_slash.concat(path)
}

impl OauthClients {
    pub fn get(&self, key: &OauthProvider) -> (r: Option<&OauthClient>)
        ensures
            match r {
                Some(c) => find_oauth(self.entries@, *key) == Some(*c),
                None => find_oauth(self.entries@, *key) is None,
            },
    {
        let mut i: usize = 0;
        assert(self.entries@.subrange(0, self.entries@.len() as int) =~= self.entries@);
        while i < self.entries.len()
            invariant
                i <= self.entries@.len(),
                find_oauth(self.entries@, *key) == find_oauth(
                    self.entries@.subrange(i as int, self.entries@.len() as int),
                    *key,
                ),
            decreases self.entries@.len() - i,
        {
            let ghost rest = self.entries@.subrange(i as int, self.entries@.len() as int);
            assert(rest.drop_first() =~= self.entries@.subrange(i + 1, self.entries@.len() as int));
            if self.entries[i].0 == *key {
                return Some(&self.entries[i].1);
            }
            i = i + 1;
        }
        None
    }
}

impl DriveClients {
    pub fn get(&self, key: &DriveProvider) -> (r: Option<&DriveClient>)
        ensures
            match r {
                Some(c) => find_drive(self.entries@, *key) == Some(*c),
                None => find_drive(self.entries@, *key) is None,
            },
    {
        let mut i: usize = 0;
        assert(self.entries@.subrange(0, self.entries@.len() as int) =~= self.entries@);
        while i < self.entries.len()
            invariant
                i <= self.entries@.len(),
                find_drive(self.entries@, *key) == find_drive(
                    self.entries@.subrange(i as int, self.entries@.len() as int),
                    *key,
                ),
            decreases self.entries@.len() - i,
        {
            let ghost rest = self.entries@.subrange(i as int, self.entries@.len() as int);
            assert(rest.drop_first() =~= self.entries@.subrange(i + 1, self.entries@.len() as int));
            if self.entries[i].0 == *key {
                return Some(&self.entries[i].1);
            }
            i = i + 1;
        }
        None
    }
}

/// Builds the identity client of one provider; an endpoint that is not a
/// valid URL is a configuration fault.
fn oauth_client(endpoint: &str, p: OauthProvider, s: &OauthServer) -> (r: Result<OauthClient, AuthError>)
    ensures
        r is Ok <==> oauth_urls_valid(endpoint@, p, *s),
        r is Ok ==> oauth_client_of(r->Ok_0, endpoint@, p, *s),
        r is Err ==> r->Err_0 is InvalidUrl,
{
    let redirect_url = redirect_uri(endpoint, p.to_path());
    if !url_parses(s.auth_url.as_str()) {
        return Err(AuthError::InvalidUrl(Message::from_str("Invalid authorization endpoint URL")));
    }
    if !url_parses(s.token_url.as_str()) {
        return Err(AuthError::InvalidUrl(Message::from_str("Invalid token endpoint URL")));
    }
    if !url_parses(redirect_url.as_str()) {
        return Err(AuthError::InvalidUrl(Message::from_str("Invalid redirect URL")));
    }
    Ok(OauthClient {
        client: ClientConfig {
            client_id: s.client_id.as_str().to_owned(),
            client_secret: s.client_secret.as_str().to_owned(),
            auth_url: s.auth_url.as_str().to_owned(),
            token_url: s.token_url.as_str().to_owned(),
            redirect_url,
        },
        scope: s.scope.as_str().to_owned(),
        identity_server: s.identity_server.as_str().to_owned(),
    })
}

/// Builds the drive client of one provider; an endpoint that is not a valid
/// URL is a configuration fault.
fn drive_client(endpoint: &str, p: DriveProvider, s: &DriveServer) -> (r: Result<DriveClient, AuthError>)
    ensures
        r is Ok <==> drive_urls_valid(endpoint@, p, *s),
        r is Ok ==> drive_client_of(r->Ok_0, endpoint@, p, *s),
        r is Err ==> r->Err_0 is InvalidUrl,
{
    let redirect_url = redirect_uri(endpoint, p.to_path());
    if !url_parses(s.auth_uri.as_str()) {
        return Err(AuthError::InvalidUrl(Message::from_str("Invalid authorization endpoint URL")));
    }
    if !url_parses(s.token_uri.as_str()) {
        return Err(AuthError::InvalidUrl(Message::from_str("Invalid token endpoint URL")));
    }
    if !url_parses(redirect_url.as_str()) {
        return Err(AuthError::InvalidUrl(Message::from_str("Invalid redirect URL")));
    }
    let method = match &s.files_request.method {
        Some(m) => m.as_str().to_owned(),
        None => "post".to_owned(),
    };
    Ok(DriveClient {
        client: ClientConfig {
            client_id: s.client_id.as_str().to_owned(),
            client_secret: s.client_secret.as_str().to_owned(),
            auth_url: s.auth_uri.as_str().to_owned(),
            token_url: s.token_uri.as_str().to_owned(),
            redirect_url,
        },
        scopes: clone_strings(&s.scopes),
        files_request: FilesRequest {
            method,
            drive_server: s.files_request.drive_server.as_str().to_owned(),
            endpoint: s.files_request.endpoint.as_str().to_owned(),
            query_ls: s.files_request.query_ls.as_str().to_owned(),
            query_read: clone_opt(&s.files_request.query_read),
            json_body_ls: clone_opt(&s.files_request.json_body_ls),
        },
    })
}

/// Builds the identity registry from the configured providers, with the
/// callback base `endpoint`; fails if any endpoint is not a valid URL.
pub fn init(endpoint: &str, servers: &Vec<(OauthProvider, OauthServer)>) -> (r: Result<
    OauthClients,
    AuthError,
>)
    ensures
        r is Ok <==> forall|i: int|
            0 <= i < servers@.len() ==> oauth_urls_valid(endpoint@, #[trigger] servers@[i].0, servers@[i].1),
        r is Ok ==> r->Ok_0.entries@.len() == servers@.len() && forall|i: int|
            0 <= i < servers@.len() ==> (#[trigger] r->Ok_0.entries@[i]).0 == servers@[i].0
                && oauth_client_of(r->Ok_0.entries@[i].1, endpoint@, servers@[i].0, servers@[i].1),
        r is Err ==> r->Err_0 is InvalidUrl,
{
    let mut entries: Vec<(OauthProvider, OauthClient)> = Vec::new();
    let mut i: usize = 0;
    while i < servers.len()
        invariant
            i <= servers@.len(),
            entries@.len() == i,
            forall|j: int|
                0 <= j < i ==> oauth_urls_valid(endpoint@, #[trigger] servers@[j].0, servers@[j].1),
            forall|j: int|
                0 <= j < i ==> (#[trigger] entries@[j]).0 == servers@[j].0 && oauth_client_of(
                    entries@[j].1,
                    endpoint@,
                    servers@[j].0,
                    servers@[j].1,
                ),
        decreases servers@.len() - i,
    {
        let p = servers[i].0;
        let c = oauth_client(endpoint, p, &servers[i].1)?;
        entries.push((p, c));
        i = i + 1;
    }
    Ok(OauthClients { entries })
}

/// Builds the drive registry from the configured providers, with the
/// callback base `endpoint`; fails if any endpoint is not a valid URL.
pub fn init_drive(endpoint: &str, servers: &Vec<(DriveProvider, DriveServer)>) -> (r: Result<
    DriveClients,
    AuthError,
>)
    ensures
        r is Ok <==> forall|i: int|
            0 <= i < servers@.len() ==> drive_urls_valid(endpoint@, #[trigger] servers@[i].0, servers@[i].1),
        r is Ok ==> r->Ok_0.entries@.len() == servers@.len() && forall|i: int|
            0 <= i < servers@.len() ==> (#[trigger] r->Ok_0.entries@[i]).0 == servers@[i].0
                && drive_client_of(r->Ok_0.entries@[i].1, endpoint@, servers@[i].0, servers@[i].1),
        r is Err ==> r->Err_0 is InvalidUrl,
{
    let mut entries: Vec<(DriveProvider, DriveClient)> = Vec::new();
    let mut i: usize = 0;
    while i < servers.len()
        invariant
            i <= servers@.len(),
            entries@.len() == i,
            forall|j: int|
                0 <= j < i ==> drive_urls_valid(endpoint@, #[trigger] servers@[j].0, servers@[j].1),
            forall|j: int|
                0 <= j < i ==> (#[trigger] entries@[j]).0 == servers@[j].0 && drive_client_of(
                    entries@[j].1,
                    endpoint@,
                    servers@[j].0,
                    servers@[j].1,
                ),
        decreases servers@.len() - i,
    {
        let p = servers[i].0;
        let c = drive_client(endpoint, p, &servers[i].1)?;
        entries.push((p, c));
        i = i + 1;
    }
    Ok(DriveClients { entries })
}

} // verus!
