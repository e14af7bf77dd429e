//! The callback half of the login flow, as a state machine: each step takes
//! the outcome of the previous remote call and decides the next one.

use vstd::prelude::*;

use crate::error::AuthError;
use crate::message::Message;
use crate::provider::{str_eq, OauthProvider};
use crate::registry::{find_oauth, OauthClient, OauthClients};
use crate::session::{retrieve_validators, session_id, validators_outcome, FlowSession, Validators};
use crate::user::{canonical_identity, identity_shape, spec_identity_shape, IdentityShape, RawIdentity};
use crate::user_registration::{registration_of, UserRegistration};

verus! {

/// The code and state a provider sends back to a callback.
#[derive(Debug, Clone, PartialEq, Eq)]
pub struct AuthReturnValues {
    pub code: String,
    pub state: String,
}

/// Where a login callback stands.
#[derive(Debug)]
pub enum LoginState {
    /// The session record was asked for.
    AwaitingSession { code: String, state: String, provider: OauthProvider, identity_server: String },
    /// The code was handed in for a token.
    AwaitingToken { identity_server: String, shape: IdentityShape },
    /// The identity resource was asked for.
    AwaitingIdentity { shape: IdentityShape },
    /// The registrar was asked to register the user.
    AwaitingRegistration,
    /// The flow is over.
    Done,
}

/// What the caller is to do next.
#[derive(Debug)]
pub enum LoginAction {
    /// Load the session record stored under this key.
    LoadSession { session_id: String },
    /// Exchange the code for a token, proving the PKCE verifier.
    ExchangeCode { code: String, pkce_verifier: String },
    /// Fetch the identity resource with the access token, and read it in
    /// the given shape.
    FetchIdentity { url: String, access_token: String, shape: IdentityShape },
    /// Send the registration to the registrar.
    Register { registration: UserRegistration },
    /// Forward the registrar's session cookie and send the browser to the
    /// application.
    Complete { set_cookie: String },
    /// Stop with this error; nothing more is to be done.
    Fail { error: AuthError },
}

/// The outcome of the remote call that the last action asked for.
#[derive(Debug)]
pub enum LoginEvent {
    SessionLoaded { record: Option<FlowSession> },
    TokenIssued { result: Result<String, AuthError> },
    IdentityFetched { result: Result<RawIdentity, AuthError> },
    /// The registrar answered; with its `Set-Cookie` value, if it sent one.
    Registered { result: Result<Option<String>, AuthError> },
}

/// Whether `r` stops the flow with an error of the kind `kind` accepts.
pub open spec fn fails_with(r: (LoginState, LoginAction), kind: spec_fn(AuthError) -> bool) -> bool {
    &&& r.0 is Done
    &&& r.1 is Fail
    &&& kind(r.1->Fail_error)
}

/// How a callback starts: an unregistered provider is unsupported; without
/// the flow cookie the session is missing; else its record is loaded.
pub open spec fn login_start_spec(
    entries: Seq<(OauthProvider, OauthClient)>,
    provider: OauthProvider,
    code: String,
    state: String,
    cookie: Option<String>,
    r: (LoginState, LoginAction),
) -> bool {
    match find_oauth(entries, provider) {
        None => fails_with(r, |e: AuthError| e is UnsupportedProvider),
        Some(c) => match cookie {
            None => fails_with(r, |e: AuthError| e is MissingSession),
            Some(id) => {
                &&& r.0 matches LoginState::AwaitingSession { code: c2, state: s2, provider: prov, identity_server: i2 }
                    && c2 == code && s2 == state && prov == provider && i2@ == c.identity_server@
                &&& r.1 == LoginAction::LoadSession { session_id: id }
            },
        },
    }
}

/// One step of the callback.
///
/// - A loaded record must hold both secrets, and the returned state must be
///   the stored CSRF token; the provider must have an identity shape that
///   the flow reads. Only then is the code exchanged.
/// - A token leads to the identity fetch, an identity to its registration,
///   and the registrar's cookie to completion; a missing cookie there is a
///   missing cookie.
/// - Any failure reported by the caller stops the flow with that failure;
///   an event that does not answer the last action is an internal error.
pub open spec fn login_next(s: LoginState, e: LoginEvent, r: (LoginState, LoginAction)) -> bool {
    match (s, e) {
        (
            LoginState::AwaitingSession { code, state, provider, identity_server },
            LoginEvent::SessionLoaded { record },
        ) => {
            let v = record->0;
            if !(record is Some && v.pkce_verifier is Some && v.csrf_token is Some) {
                &&& r.0 is Done
                &&& r.1 is Fail
                &&& validators_outcome(record, Err(r.1->Fail_error))
            } else if v.csrf_token->0@ != state@ {
                fails_with(r, |e: AuthError| e is InvalidResponse)
            } else if spec_identity_shape(provider) is None {
                fails_with(r, |e: AuthError| e is UnsupportedProvider)
            } else {
                &&& r.0 == LoginState::AwaitingToken {
                    identity_server,
                    shape: spec_identity_shape(provider)->0,
                }
                &&& r.1 == LoginAction::ExchangeCode { code, pkce_verifier: v.pkce_verifier->0 }
            }
        },
        (LoginState::AwaitingToken { identity_server, shape }, LoginEvent::TokenIssued { result }) => {
            match result {
                Err(err) => r.0 is Done && r.1 == LoginAction::Fail { error: err },
                Ok(token) => {
                    &&& r.0 == LoginState::AwaitingIdentity { shape }
                    &&& r.1 == LoginAction::FetchIdentity { url: identity_server, access_token: token, shape }
                },
            }
        },
        (LoginState::AwaitingIdentity { shape }, LoginEvent::IdentityFetched { result }) => {
            match result {
                Err(err) => r.0 is Done && r.1 == LoginAction::Fail { error: err },
                Ok(raw) => {
                    &&& r.0 is AwaitingRegistration
                    &&& r.1 matches LoginAction::Register { registration }
                        && registration_of(registration, canonical_identity(raw))
                },
            }
        },
        (LoginState::AwaitingRegistration, LoginEvent::Registered { result }) => {
            match result {
                Err(err) => r.0 is Done && r.1 == LoginAction::Fail { error: err },
                Ok(None) => fails_with(r, |e: AuthError| e is MissingCookie),
                Ok(Some(cookie)) => r.0 is Done && r.1 == LoginAction::Complete { set_cookie: cookie },
            }
        },
        _ => fails_with(r, |e: AuthError| e is InternalError),
    }
}

fn fail(error: AuthError) -> (r: (LoginState, LoginAction))
    ensures
        r.0 is Done,
        r.1 == (LoginAction::Fail { error }),
{
    (LoginState::Done, LoginAction::Fail { error })
}

/// Starts a login callback for the code and state the provider sent back,
/// with the flow cookie if the browser sent one.
pub fn login_start(
    clients: &OauthClients,
    provider: OauthProvider,
    code: String,
    state: String,
    cookie: Option<String>,
) -> (r: (LoginState, LoginAction))
    ensures
        login_start_spec(clients.entries@, provider, code, state, cookie, r),
{
    match clients.get(&provider) {
        None => fail(AuthError::UnsupportedProvider(Message::from_str("Auth client not found"))),
        Some(c) => match session_id(cookie) {
            Err(e) => fail(e),
            Ok(id) => (
                LoginState::AwaitingSession {
                    code,
                    state,
                    provider,
                    identity_server: c.identity_server.as_str().to_owned(),
                },
                LoginAction::LoadSession { session_id: id },
            ),
        },
    }
}

/// Takes one step of a login callback.
pub fn login_step(s: LoginState, e: LoginEvent) -> (r: (LoginState, LoginAction))
    ensures
        login_next(s, e, r),
{
    match (s, e) {
        (
            LoginState::AwaitingSession { code, state, provider, identity_server },
            LoginEvent::SessionLoaded { record },
        ) => {
            let Validators { pkce_verifier, csrf_token } = match retrieve_validators(record) {
                Err(err) => {
                    return fail(err);
                },
                Ok(v) => v,
            };
            if !str_eq(csrf_token.as_str(), state.as_str()) {
                return fail(AuthError::InvalidResponse(Message::from_str("state does not match the session")));
            }
            match identity_shape(provider) {
                Err(err) => fail(err),
                Ok(shape) => (
                    LoginState::AwaitingToken { identity_server, shape },
                    LoginAction::ExchangeCode { code, pkce_verifier },
                ),
            }
        },
        (LoginState::AwaitingToken { identity_server, shape }, LoginEvent::TokenIssued { result }) => {
            match result {
                Err(err) => fail(err),
                Ok(token) => (
                    LoginState::AwaitingIdentity { shape },
                    LoginAction::FetchIdentity { url: identity_server, access_token: token, shape },
                ),
            }
        },
        (LoginState::AwaitingIdentity { shape }, LoginEvent::IdentityFetched { result }) => {
            match result {
                Err(err) => fail(err),
                Ok(raw) => {
                    let user = raw.normalize();
                    let registration = UserRegistration::from_raw_user(user);
                    (LoginState::AwaitingRegistration, LoginAction::Register { registration })
                },
            }
        },
        (LoginState::AwaitingRegistration, LoginEvent::Registered { result }) => {
            match result {
                Err(err) => fail(err),
                Ok(None) => fail(AuthError::MissingCookie(Message::from_str("Tried to forward; missing session cookie"))),
                Ok(Some(cookie)) => (LoginState::Done, LoginAction::Complete { set_cookie: cookie }),
            }
        },
        _ => fail(AuthError::InternalError(Message::from_str("event does not answer the last action"))),
    }
}

/// Without the flow cookie a callback fails with a missing session at once,
/// for any registered provider, code and state.
pub proof fn lemma_no_cookie_fails(
    entries: Seq<(OauthProvider, OauthClient)>,
    provider: OauthProvider,
    code: String,
    state: String,
    r: (LoginState, LoginAction),
)
    requires
        find_oauth(entries, provider) is Some,
        login_start_spec(entries, provider, code, state, None, r),
    ensures
        r.0 is Done,
        r.1 is Fail,
        r.1->Fail_error is MissingSession,
        r.1->Fail_error.spec_status() == 204,
{
}

/// Once a flow is over, every further event only fails: no code is ever
/// exchanged after a failure.
pub proof fn lemma_done_is_final(e: LoginEvent, r: (LoginState, LoginAction))
    requires
        login_next(LoginState::Done, e, r),
    ensures
        r.0 is Done,
        r.1 is Fail,
{
}

/// A code is exchanged only right after a loaded session record held both
/// secrets and its CSRF token equals the returned state.
pub proof fn lemma_exchange_needs_session(s: LoginState, e: LoginEvent, r: (LoginState, LoginAction))
    requires
        login_next(s, e, r),
        r.1 is ExchangeCode,
    ensures
        s is AwaitingSession,
        e is SessionLoaded,
        e->SessionLoaded_record is Some,
        e->SessionLoaded_record->0.pkce_verifier == Some(r.1->ExchangeCode_pkce_verifier),
        e->SessionLoaded_record->0.csrf_token is Some,
        e->SessionLoaded_record->0.csrf_token->0@ == s->AwaitingSession_state@,
{
}

/// A session record without the PKCE verifier or the CSRF token fails with
/// a missing challenge.
pub proof fn lemma_incomplete_record_fails(
    code: String,
    state: String,
    provider: OauthProvider,
    identity_server: String,
    record: FlowSession,
    r: (LoginState, LoginAction),
)
    requires
        record.pkce_verifier is None || record.csrf_token is None,
        login_next(
            LoginState::AwaitingSession { code, state, provider, identity_server },
            LoginEvent::SessionLoaded { record: Some(record) },
            r,
        ),
    ensures
        r.0 is Done,
        r.1 is Fail,
        r.1->Fail_error is MissingChallenge,
{
}

/// Whether `states` and `actions` are what a callback goes through when
/// it is started with the given request and then fed `events` in turn.
pub open spec fn is_login_run(
    entries: Seq<(OauthProvider, OauthClient)>,
    provider: OauthProvider,
    code: String,
    state: String,
    cookie: Option<String>,
    events: Seq<LoginEvent>,
    states: Seq<LoginState>,
    actions: Seq<LoginAction>,
) -> bool {
    &&& states.len() == events.len() + 1
    &&& actions.len() == events.len() + 1
    &&& login_start_spec(entries, provider, code, state, cookie, (states[0], actions[0]))
    &&& forall|i: int|
        0 <= i < events.len() ==> #[trigger] login_next(
            states[i],
            events[i],
            (states[i + 1], actions[i + 1]),
        )
}

proof fn lemma_run_stays_failed(events: Seq<LoginEvent>, states: Seq<LoginState>, actions: Seq<LoginAction>, k: int)
    requires
        states.len() == events.len() + 1,
        actions.len() == events.len() + 1,
        forall|i: int|
            0 <= i < events.len() ==> #[trigger] login_next(
                states[i],
                events[i],
                (states[i + 1], actions[i + 1]),
            ),
        states[0] is Done,
        actions[0] is Fail,
        0 <= k <= events.len(),
    ensures
        states[k] is Done,
        actions[k] is Fail,
    decreases k,
{
    if k > 0 {
        let j = k - 1;
        lemma_run_stays_failed(events, states, actions, j);
        assert(login_next(states[j], events[j], (states[j + 1], actions[j + 1])));
    }
}

/// A callback without the flow cookie never exchanges a code, whatever
/// events follow: it fails at once with a missing session, and every later
/// step only fails.
pub proof fn lemma_no_cookie_no_exchange(
    entries: Seq<(OauthProvider, OauthClient)>,
    provider: OauthProvider,
    code: String,
    state: String,
    events: Seq<LoginEvent>,
    states: Seq<LoginState>,
    actions: Seq<LoginAction>,
)
    requires
        is_login_run(entries, provider, code, state, None, events, states, actions),
    ensures
        actions[0] is Fail,
        find_oauth(entries, provider) is Some ==> actions[0]->Fail_error is MissingSession,
        forall|i: int| 0 <= i < actions.len() ==> !(#[trigger] actions[i] is ExchangeCode),
{
    assert forall|i: int| 0 <= i < actions.len() implies !(#[trigger] actions[i] is ExchangeCode) by {
        lemma_run_stays_failed(events, states, actions, i);
    }
}

} // verus!
