//! The kick-off step of both flows: the authorize URL a browser is sent to,
//! with a fresh PKCE challenge and the flow's state.

use vstd::prelude::*;

use crate::error::AuthError;
use crate::message::Message;
use crate::project_id::{hyphenated_text, ProjectId};
use crate::provider::{DriveProvider, OauthProvider};
use crate::registry::{find_drive, find_oauth, ClientConfig, DriveClients, OauthClients};
use crate::text::{parses_as_url, views};

verus! {

/// The views of a list of query pairs.
pub open spec fn pair_views(s: Seq<(String, String)>) -> Seq<(Seq<char>, Seq<char>)> {
    s.map_values(|p: (String, String)| (p.0@, p.1@))
}

/// Scopes joined by single spaces.
pub open spec fn join_scopes(s: Seq<Seq<char>>) -> Seq<char>
    decreases s.len(),
{
    if s.len() == 0 {
        Seq::empty()
    } else if s.len() == 1 {
        s[0]
    } else {
        join_scopes(s.drop_last()) + " "@ + s.last()
    }
}

/// The query of an authorization request, in the order the OAuth client
/// writes it: response type, client id, state, PKCE challenge and method,
/// redirect URI, the scopes where there are any, then the provider's
/// extra parameters.
pub open spec fn authorize_pairs(
    client: ClientConfig,
    state: Seq<char>,
    challenge: Seq<char>,
    scope: Seq<char>,
    extras: Seq<(Seq<char>, Seq<char>)>,
) -> Seq<(Seq<char>, Seq<char>)> {
    seq![
        ("response_type"@, "code"@),
        ("client_id"@, client.client_id@),
        ("state"@, state),
        ("code_challenge"@, challenge),
        ("code_challenge_method"@, "S256"@),
        ("redirect_uri"@, client.redirect_url@),
    ] + (if scope.len() > 0 {
        seq![("scope"@, scope)]
    } else {
        Seq::empty()
    }) + extras
}

/// The extra parameters each identity provider requires: Google asks for
/// consent and offline access.
pub open spec fn login_extras(p: OauthProvider) -> Seq<(Seq<char>, Seq<char>)> {
    match p {
        OauthProvider::Google => seq![("prompt"@, "consent"@), ("access_type"@, "offline"@)],
        _ => Seq::empty(),
    }
}

/// The extra parameters each drive provider requires, then the refresh
/// token hint every drive request carries.
pub open spec fn drive_extras(p: DriveProvider) -> Seq<(Seq<char>, Seq<char>)> {
    let own: Seq<(Seq<char>, Seq<char>)> = match p {
        DriveProvider::Google => seq![("prompt"@, "consent"@), ("access_type"@, "offline"@)],
        DriveProvider::DropBox => seq![("token_access_type"@, "offline"@)],
        _ => Seq::empty(),
    };
    own + seq![("refresh_token_key"@, "refresh_access"@)]
}

/// The S256 PKCE challenge of a verifier: base64url of its SHA-256 digest.
pub uninterp spec fn pkce_s256_challenge(verifier: Seq<char>) -> Seq<char>;

/// The text `s` with each pair added to its query, form-encoded, or `None`
/// where `s` is not an absolute URL.
pub uninterp spec fn url_with_query(s: Seq<char>, pairs: Seq<(Seq<char>, Seq<char>)>) -> Option<
    Seq<char>,
>;

/// Whether a verifier is of the length PKCE admits.
pub open spec fn verifier_fits(v: Seq<char>) -> bool {
    &&& vstd::utf8::is_ascii_chars(v)
    &&& 43 <= v.len() <= 128
}

/// Relies on `oauth2::PkceCodeChallenge::new_random_sha256`: a verifier of
/// 32 random bytes, base64url-encoded without padding (43 characters).
#[verifier::external_body]
fn random_pkce_verifier() -> (r: String)
    ensures
        verifier_fits(r@),
{
    oauth2::PkceCodeChallenge::new_random_sha256().1.secret().to_string()
}

/// Relies on `oauth2::PkceCodeChallenge::from_code_verifier_sha256`, which
/// panics on a verifier shorter than 43 or longer than 128 bytes.
#[verifier::external_body]
fn pkce_challenge(verifier: &str) -> (r: String)
    requires
        verifier_fits(verifier@),
    ensures
        r@ == pkce_s256_challenge(verifier@),
{
    let v = oauth2::PkceCodeVerifier::new(verifier.to_string());
    oauth2::PkceCodeChallenge::from_code_verifier_sha256(&v).as_str().to_string()
}

/// Relies on `oauth2::CsrfToken::new_random`: 16 random bytes,
/// base64url-encoded; nothing is known of its text.
#[verifier::external_body]
fn random_csrf_token() -> (r: String) {
    oauth2::CsrfToken::new_random().secret().to_string()
}

/// Relies on `url::Url::parse_with_params`: it fails exactly where the
/// base does not parse, and appends the pairs to the query.
#[verifier::external_body]
fn render_url(base: &str, pairs: &Vec<(String, String)>) -> (r: Option<String>)
    ensures
        r is Some <==> parses_as_url(base@),
        r is Some ==> url_with_query(base@, pair_views(pairs@)) == Some(r->0@),
{
    url::Url::parse_with_params(base, pairs.iter()).ok().map(|u| u.to_string())
}

/// An authorization request, before it is written out as a URL.
#[derive(Debug, Clone)]
pub struct AuthorizeRequest {
    pub auth_url: String,
    pub params: Vec<(String, String)>,
}

/// A started flow: where to send the browser, and the secrets to keep in
/// its session.
#[derive(Debug, Clone)]
pub struct Initiation {
    pub location: String,
    pub pkce_verifier: String,
    pub csrf_token: String,
}

fn pair(k: &str, v: &str) -> (r: (String, String))
    ensures
        r.0@ == k@,
        r.1@ == v@,
{
    (k.to_owned(), v.to_owned())
}

/// Appends one query pair.
fn push_pair(params: &mut Vec<(String, String)>, k: &str, v: &str)
    ensures
        pair_views(final(params)@) == pair_views(old(params)@).push((k@, v@)),
{
    let ghost before = params@;
    let p = pair(k, v);
    params.push(p);
    assert(params@ =~= before.push(p));
    assert(pair_views(before.push(p)) =~= pair_views(before).push((k@, v@)));
}

/// Scopes joined by single spaces.
pub fn join_scope_list(scopes: &Vec<String>) -> (r: String)
    ensures
        r@ == join_scopes(views(scopes@)),
{
    let mut out = String::new();
    let mut i: usize = 0;
    while i < scopes.len()
        invariant
            i <= scopes@.len(),
            out@ == join_scopes(views(scopes@.subrange(0, i as int))),
        decreases scopes@.len() - i,
    {
        let ghost before = views(scopes@.subrange(0, i as int));
        let ghost after = views(scopes@.subrange(0, i + 1));
        assert(after.drop_last() =~= before);
        assert(after.last() == scopes@[i as int]@);
        if i == 0 {
            out = scopes[i].as_str().to_owned();
            assert(before.len() == 0);
            assert(after.len() == 1);
        } else {
            let spaced = out.concat(" ");
            out = spaced.concat(scopes[i].as_str());
        }
        i = i + 1;
    }
    assert(scopes@.subrange(0, scopes@.len() as int) =~= scopes@);
    out
}

/// The query pairs of an authorization request.
fn authorize_params(client: &ClientConfig, state: &str, challenge: &str, scope: &str) -> (r: Vec<
    (String, String),
>)
    ensures
        pair_views(r@) == authorize_pairs(*client, state@, challenge@, scope@, Seq::empty()),
{
    let mut params: Vec<(String, String)> = Vec::new();
    push_pair(&mut params, "response_type", "code");
    push_pair(&mut params, "client_id", client.client_id.as_str());
    push_pair(&mut params, "state", state);
    push_pair(&mut params, "code_challenge", challenge);
    push_pair(&mut params, "code_challenge_method", "S256");
    push_pair(&mut params, "redirect_uri", client.redirect_url.as_str());
    if !scope.is_empty() {
        push_pair(&mut params, "scope", scope);
    }
    assert(pair_views(params@) =~= authorize_pairs(*client, state@, challenge@, scope@, Seq::empty()));
    params
}

/// The authorization request of the login flow for `provider`; an
/// unregistered provider is unsupported.
pub fn authorize_login(clients: &OauthClients, provider: OauthProvider, pkce_verifier: &str, csrf_token: &str) -> (r:
    Result<AuthorizeRequest, AuthError>)
    requires
        verifier_fits(pkce_verifier@),
    ensures
        r is Ok <==> find_oauth(clients.entries@, provider) is Some,
        r is Ok ==> ({
            let c = find_oauth(clients.entries@, provider)->0;
            &&& r->Ok_0.auth_url@ == c.client.auth_url@
            &&& pair_views(r->Ok_0.params@) == authorize_pairs(
                c.client,
                csrf_token@,
                pkce_s256_challenge(pkce_verifier@),
                c.scope@,
                login_extras(provider),
            )
        }),
        r is Err ==> r->Err_0 is UnsupportedProvider,
{
    match clients.get(&provider) {
        None => Err(AuthError::UnsupportedProvider(Message::from_str("Auth client not found"))),
        Some(c) => {
            let challenge = pkce_challenge(pkce_verifier);
            let mut params = authorize_params(&c.client, csrf_token, challenge.as_str(), c.scope.as_str());
            let ghost base = pair_views(params@);
            match provider {
                OauthProvider::Google => {
                    push_pair(&mut params, "prompt", "consent");
                    push_pair(&mut params, "access_type", "offline");
                },
                _ => {},
            }
            assert(pair_views(params@) =~= base + login_extras(provider));
            Ok(AuthorizeRequest { auth_url: c.client.auth_url.as_str().to_owned(), params })
        },
    }
}

/// The authorization request of the drive flow for `provider`: the state
/// is the project id's text; an unregistered provider is unsupported.
pub fn authorize_drive(clients: &DriveClients, provider: DriveProvider, project_id: &ProjectId, pkce_verifier: &str) -> (r:
    Result<AuthorizeRequest, AuthError>)
    requires
        verifier_fits(pkce_verifier@),
    ensures
        r is Ok <==> find_drive(clients.entries@, provider) is Some,
        r is Ok ==> ({
            let c = find_drive(clients.entries@, provider)->0;
            &&& r->Ok_0.auth_url@ == c.client.auth_url@
            &&& pair_views(r->Ok_0.params@) == authorize_pairs(
                c.client,
                hyphenated_text(project_id@),
                pkce_s256_challenge(pkce_verifier@),
                join_scopes(views(c.scopes@)),
                drive_extras(provider),
            )
        }),
        r is Err ==> r->Err_0 is UnsupportedProvider,
{
    match clients.get(&provider) {
        None => Err(AuthError::UnsupportedProvider(Message::from_str("Auth client not found"))),
        Some(c) => {
            let challenge = pkce_challenge(pkce_verifier);
            let state = project_id.to_string();
            let scope = join_scope_list(&c.scopes);
            let mut params = authorize_params(&c.client, state.as_str(), challenge.as_str(), scope.as_str());
            let ghost base = pair_views(params@);
            match provider {
                DriveProvider::Google => {
                    push_pair(&mut params, "prompt", "consent");
                    push_pair(&mut params, "access_type", "offline");
                },
                DriveProvider::DropBox => {
                    push_pair(&mut params, "token_access_type", "offline");
                },
                _ => {},
            }
            push_pair(&mut params, "refresh_token_key", "refresh_access");
            assert(pair_views(params@) =~= base + drive_extras(provider));
            Ok(AuthorizeRequest { auth_url: c.client.auth_url.as_str().to_owned(), params })
        },
    }
}

/// The location a request sends the browser to; a base that is not a URL
/// is a malformed URL.
pub fn request_location(req: &AuthorizeRequest) -> (r: Result<String, AuthError>)
    ensures
        r is Ok <==> parses_as_url(req.auth_url@),
        r is Ok ==> url_with_query(req.auth_url@, pair_views(req.params@)) == Some(r->Ok_0@),
        r is Err ==> r->Err_0 is InvalidUrl,
{
    match render_url(req.auth_url.as_str(), &req.params) {
        Some(u) => Ok(u),
        None => Err(AuthError::InvalidUrl(Message::from_str("Auth Url does not have a valid host"))),
    }
}

/// Starts a login: draws a PKCE verifier and a CSRF token, and gives the
/// provider's authorize location. An unregistered provider is unsupported
/// (reported as 400).
pub fn initiate(clients: &OauthClients, provider: OauthProvider) -> (r: Result<Initiation, AuthError>)
    ensures
        find_oauth(clients.entries@, provider) is None ==> r is Err && r->Err_0 is UnsupportedProvider
            && r->Err_0.spec_status() == 400,
        find_oauth(clients.entries@, provider) is Some ==> ({
            let c = find_oauth(clients.entries@, provider)->0;
            &&& r is Ok <==> parses_as_url(c.client.auth_url@)
            &&& r is Ok ==> verifier_fits(r->Ok_0.pkce_verifier@) && url_with_query(
                c.client.auth_url@,
                authorize_pairs(
                    c.client,
                    r->Ok_0.csrf_token@,
                    pkce_s256_challenge(r->Ok_0.pkce_verifier@),
                    c.scope@,
                    login_extras(provider),
                ),
            ) == Some(r->Ok_0.location@)
            &&& r is Err ==> r->Err_0 is InvalidUrl
        }),
{
    let pkce_verifier = random_pkce_verifier();
    let csrf_token = random_csrf_token();
    let req = authorize_login(clients, provider, pkce_verifier.as_str(), csrf_token.as_str())?;
    let location = request_location(&req)?;
    Ok(Initiation { location, pkce_verifier, csrf_token })
}

/// Starts a drive authorization for a project: draws a PKCE verifier, and
/// gives the provider's authorize location, whose state is the project id.
/// An unregistered provider is unsupported (reported as 400).
pub fn initiate_drive(clients: &DriveClients, provider: DriveProvider, project_id: &ProjectId) -> (r: Result<
    Initiation,
    AuthError,
>)
    ensures
        find_drive(clients.entries@, provider) is None ==> r is Err && r->Err_0 is UnsupportedProvider
            && r->Err_0.spec_status() == 400,
        find_drive(clients.entries@, provider) is Some ==> ({
            let c = find_drive(clients.entries@, provider)->0;
            &&& r is Ok <==> parses_as_url(c.client.auth_url@)
            &&& r is Ok ==> verifier_fits(r->Ok_0.pkce_verifier@) && r->Ok_0.csrf_token@
                == hyphenated_text(project_id@) && url_with_query(
                c.client.auth_url@,
                authorize_pairs(
                    c.client,
                    hyphenated_text(project_id@),
                    pkce_s256_challenge(r->Ok_0.pkce_verifier@),
                    join_scopes(views(c.scopes@)),
                    drive_extras(provider),
                ),
            ) == Some(r->Ok_0.location@)
            &&& r is Err ==> r->Err_0 is InvalidUrl
        }),
{
    let pkce_verifier = random_pkce_verifier();
    let req = authorize_drive(clients, provider, project_id, pkce_verifier.as_str())?;
    let location = request_location(&req)?;
    let csrf_token = project_id.to_string();
    Ok(Initiation { location, pkce_verifier, csrf_token })
}

/// Every authorization query carries the flow's state and the S256 PKCE
/// challenge.
pub proof fn lemma_query_carries_secrets(
    client: ClientConfig,
    state: Seq<char>,
    challenge: Seq<char>,
    scope: Seq<char>,
    extras: Seq<(Seq<char>, Seq<char>)>,
)
    ensures
        authorize_pairs(client, state, challenge, scope, extras).contains(("state"@, state)),
        authorize_pairs(client, state, challenge, scope, extras).contains(
            ("code_challenge"@, challenge),
        ),
        authorize_pairs(client, state, challenge, scope, extras).contains(
            ("code_challenge_method"@, "S256"@),
        ),
{
    let q = authorize_pairs(client, state, challenge, scope, extras);
    assert(q[2] == ("state"@, state));
    assert(q[3] == ("code_challenge"@, challenge));
    assert(q[4] == ("code_challenge_method"@, "S256"@));
}

/// A Google login query asks for consent and for offline access.
pub proof fn lemma_google_login_query(
    client: ClientConfig,
    state: Seq<char>,
    challenge: Seq<char>,
    scope: Seq<char>,
)
    ensures
        authorize_pairs(client, state, challenge, scope, login_extras(OauthProvider::Google)).contains(
            ("prompt"@, "consent"@),
        ),
        authorize_pairs(client, state, challenge, scope, login_extras(OauthProvider::Google)).contains(
            ("access_type"@, "offline"@),
        ),
{
    let q = authorize_pairs(client, state, challenge, scope, login_extras(OauthProvider::Google));
    let n = q.len() - 2;
    assert(q[n] == ("prompt"@, "consent"@));
    assert(q[n + 1] == ("access_type"@, "offline"@));
}

/// A Dropbox drive query asks for offline access, and its state is the
/// project id's text.
pub proof fn lemma_dropbox_drive_query(
    client: ClientConfig,
    project_id: ProjectId,
    challenge: Seq<char>,
    scope: Seq<char>,
)
    ensures
        authorize_pairs(
            client,
            hyphenated_text(project_id@),
            challenge,
            scope,
            drive_extras(DriveProvider::DropBox),
        ).contains(("token_access_type"@, "offline"@)),
        authorize_pairs(
            client,
            hyphenated_text(project_id@),
            challenge,
            scope,
            drive_extras(DriveProvider::DropBox),
        ).contains(("state"@, hyphenated_text(project_id@))),
{
    let q = authorize_pairs(
        client,
        hyphenated_text(project_id@),
        challenge,
        scope,
        drive_extras(DriveProvider::DropBox),
    );
    let n = q.len() - 2;
    assert(q[n] == ("token_access_type"@, "offline"@));
    assert(q[2] == ("state"@, hyphenated_text(project_id@)));
}

} // verus!
