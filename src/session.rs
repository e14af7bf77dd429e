//! The per-flow secrets kept in the session store, and the cookie that
//! correlates a browser with them.

use vstd::prelude::*;

use crate::error::AuthError;
use crate::message::Message;

verus! {

/// The name of the cookie that holds the flow's session key.
pub open spec fn auth_session_cookie() -> Seq<char> {
    "auth_session"@
}

pub fn auth_session_cookie_name() -> (r: &'static str)
    ensures
        r@ == auth_session_cookie(),
{
    "auth_session"
}

/// The name of the downstream registrar's account-session cookie.
pub open spec fn registrar_session_cookie() -> Seq<char> {
    "tnc_session"@
}

pub fn registrar_session_cookie_name() -> (r: &'static str)
    ensures
        r@ == registrar_session_cookie(),
{
    "tnc_session"
}

/// A flow's session record as the store gives it back: either field may be
/// missing.
#[derive(Debug, Clone, PartialEq, Eq)]
pub struct FlowSession {
    pub pkce_verifier: Option<String>,
    pub csrf_token: Option<String>,
}

/// The two secrets of a complete session record.
#[derive(Debug, Clone, PartialEq, Eq)]
pub struct Validators {
    pub pkce_verifier: String,
    pub csrf_token: String,
}

impl FlowSession {
    /// The record to store when a flow starts.
    pub fn new(pkce_verifier: String, csrf_token: String) -> (r: FlowSession)
        ensures
            r.pkce_verifier == Some(pkce_verifier),
            r.csrf_token == Some(csrf_token),
    {
        FlowSession { pkce_verifier: Some(pkce_verifier), csrf_token: Some(csrf_token) }
    }
}

/// The `Set-Cookie` directive that hands the session key to the browser.
pub open spec fn cookie_directive(session_key: Seq<char>) -> Seq<char> {
    auth_session_cookie() + "="@ + session_key + "; SameSite=Lax; Path=/"@
}

/// The `Set-Cookie` directive that hands the session key to the browser:
/// path-scoped and same-site-lax.
pub fn session_cookie(session_key: &str) -> (r: String)
    ensures
        r@ == cookie_directive(session_key@),
{
    let name = auth_session_cookie_name().to_owned();
    let with_eq = name.concat("=");
    let with_key = with_eq.concat(session_key);
    with_key.concat("; SameSite=Lax; Path=/")
}

/// The session key carried by the flow cookie; a missing cookie is a
/// missing session.
pub fn session_id(cookie: Option<String>) -> (r: Result<String, AuthError>)
    ensures
        r is Ok <==> cookie is Some,
        r is Ok ==> Some(r->Ok_0) == cookie,
        r is Err ==> r->Err_0 is MissingSession,
{
    match cookie {
        Some(id) => Ok(id),
        None => Err(AuthError::MissingSession(Message::from_str("missing session cookie"))),
    }
}

/// What a loaded record yields: a missing or expired record is a missing
/// session, and a record without either secret is a missing challenge.
pub open spec fn validators_outcome(record: Option<FlowSession>, r: Result<Validators, AuthError>) -> bool {
    match record {
        None => r is Err && r->Err_0 is MissingSession,
        Some(s) => match (s.pkce_verifier, s.csrf_token) {
            (Some(v), Some(c)) => r == Ok::<Validators, AuthError>(
                Validators { pkce_verifier: v, csrf_token: c },
            ),
            _ => r is Err && r->Err_0 is MissingChallenge,
        },
    }
}

/// The secrets of a loaded session record.
pub fn retrieve_validators(record: Option<FlowSession>) -> (r: Result<Validators, AuthError>)
    ensures
        validators_outcome(record, r),
{
    match record {
        None => Err(AuthError::MissingSession(Message::from_str("no session with that id"))),
        Some(s) => match s.pkce_verifier {
            None => Err(AuthError::MissingChallenge(Message::from_str("pkce_verifier not in session"))),
            Some(v) => match s.csrf_token {
                None => Err(AuthError::MissingChallenge(Message::from_str("csrf_state not in session"))),
                Some(c) => Ok(Validators { pkce_verifier: v, csrf_token: c }),
            },
        },
    }
}

} // verus!
