//! The callback half of the drive authorization flow, as a state machine.
//! The provider returns the project id as the flow's state.

use vstd::prelude::*;

use crate::drive_token::{drive_token_of, Builder, DriveToken, TokenResponse};
use crate::error::AuthError;
use crate::message::Message;
use crate::project_id::{hyphenated_text, is_uuid_text, lemma_project_id_round_trip, uuid_bytes, ProjectId};
use crate::provider::{str_eq, DriveProvider};
use crate::registry::{find_drive, DriveClient, DriveClients};
use crate::session::{retrieve_validators, session_id, validators_outcome, FlowSession, Validators};

verus! {

/// Where a drive callback stands.
#[derive(Debug)]
pub enum DriveState {
    /// The session record was asked for.
    AwaitingSession {
        code: String,
        state: String,
        provider: DriveProvider,
        project_id: ProjectId,
        token_url: String,
        registrar_session: String,
    },
    /// The code was handed in for a token.
    AwaitingToken {
        provider: DriveProvider,
        project_id: ProjectId,
        token_url: String,
        registrar_session: String,
    },
    /// The registrar was asked to keep the drive token.
    AwaitingRegistration { project_id: ProjectId },
    /// The flow is over.
    Done,
}

/// What the caller is to do next.
#[derive(Debug)]
pub enum DriveAction {
    /// Load the session record stored under this key.
    LoadSession { session_id: String },
    /// Exchange the code for a token, proving the PKCE verifier.
    ExchangeCode { code: String, pkce_verifier: String },
    /// Send the drive token to the registrar, forwarding its account
    /// session cookie.
    RegisterToken { token: DriveToken, registrar_session: String },
    /// Send the browser to the project's file listing.
    Complete { project_id: ProjectId },
    /// Stop with this error; nothing more is to be done.
    Fail { error: AuthError },
}

/// The outcome of the remote call that the last action asked for.
#[derive(Debug)]
pub enum DriveEvent {
    SessionLoaded { record: Option<FlowSession> },
    TokenIssued { result: Result<TokenResponse, AuthError> },
    TokenRegistered { result: Result<(), AuthError> },
}

/// Whether `r` stops the flow with an error of the kind `kind` accepts.
pub open spec fn drive_fails_with(r: (DriveState, DriveAction), kind: spec_fn(AuthError) -> bool) -> bool {
    &&& r.0 is Done
    &&& r.1 is Fail
    &&& kind(r.1->Fail_error)
}

/// How a drive callback starts: an unregistered provider is unsupported; a
/// state that is not a UUID text is a project-id error; without the flow
/// cookie, or without the registrar's account cookie, the session is
/// missing; else the flow's record is loaded.
pub open spec fn drive_start_spec(
    entries: Seq<(DriveProvider, DriveClient)>,
    provider: DriveProvider,
    code: String,
    state: String,
    cookie: Option<String>,
    registrar_session: Option<String>,
    r: (DriveState, DriveAction),
) -> bool {
    match find_drive(entries, provider) {
        None => drive_fails_with(r, |e: AuthError| e is UnsupportedProvider),
        Some(c) => if !is_uuid_text(state@) {
            drive_fails_with(r, |e: AuthError| e is ProjectIdError)
        } else {
            match (cookie, registrar_session) {
                (Some(id), Some(rs)) => {
                    &&& r.0 matches DriveState::AwaitingSession {
                        code: c2,
                        state: s2,
                        provider: prov,
                        project_id,
                        token_url,
                        registrar_session: rs2,
                    } && c2 == code && s2 == state && prov == provider && project_id@ == uuid_bytes(
                        state@,
                    ) && token_url@ == c.client.token_url@ && rs2 == rs
                    &&& r.1 == DriveAction::LoadSession { session_id: id }
                },
                _ => drive_fails_with(r, |e: AuthError| e is MissingSession),
            }
        },
    }
}

/// One step of the drive callback.
///
/// - A loaded record must hold both secrets, and the returned state must be
///   the stored one; only then is the code exchanged.
/// - A token becomes the project's drive token, sent to the registrar with
///   the provider's token endpoint; once kept, the browser goes to the
///   project's files.
/// - Any failure reported by the caller stops the flow with that failure;
///   an event that does not answer the last action is an internal error.
pub open spec fn drive_next(s: DriveState, e: DriveEvent, r: (DriveState, DriveAction)) -> bool {
    match (s, e) {
        (
            DriveState::AwaitingSession { code, state, provider, project_id, token_url, registrar_session },
            DriveEvent::SessionLoaded { record },
        ) => {
            let v = record->0;
            if !(record is Some && v.pkce_verifier is Some && v.csrf_token is Some) {
                &&& r.0 is Done
                &&& r.1 is Fail
                &&& validators_outcome(record, Err(r.1->Fail_error))
            } else if v.csrf_token->0@ != state@ {
                drive_fails_with(r, |e: AuthError| e is InvalidResponse)
            } else {
                &&& r.0 == DriveState::AwaitingToken { provider, project_id, token_url, registrar_session }
                &&& r.1 == DriveAction::ExchangeCode { code, pkce_verifier: v.pkce_verifier->0 }
            }
        },
        (
            DriveState::AwaitingToken { provider, project_id, token_url, registrar_session },
            DriveEvent::TokenIssued { result },
        ) => {
            match result {
                Err(err) => r.0 is Done && r.1 == DriveAction::Fail { error: err },
                Ok(resp) => {
                    &&& r.0 == DriveState::AwaitingRegistration { project_id }
                    &&& r.1 matches DriveAction::RegisterToken { token, registrar_session: rs }
                        && rs == registrar_session && drive_token_of(
                        token,
                        resp,
                        Some(token_url),
                        project_id,
                        provider,
                    )
                },
            }
        },
        (DriveState::AwaitingRegistration { project_id }, DriveEvent::TokenRegistered { result }) => {
            match result {
                Err(err) => r.0 is Done && r.1 == DriveAction::Fail { error: err },
                Ok(()) => r.0 is Done && r.1 == DriveAction::Complete { project_id },
            }
        },
        _ => drive_fails_with(r, |e: AuthError| e is InternalError),
    }
}

fn fail(error: AuthError) -> (r: (DriveState, DriveAction))
    ensures
        r.0 is Done,
        r.1 == (DriveAction::Fail { error }),
{
    (DriveState::Done, DriveAction::Fail { error })
}

/// Starts a drive callback for the code and state the provider sent back,
/// with the flow cookie and the registrar's account cookie if the browser
/// sent them.
pub fn drive_start(
    clients: &DriveClients,
    provider: DriveProvider,
    code: String,
    state: String,
    cookie: Option<String>,
    registrar_session: Option<String>,
) -> (r: (DriveState, DriveAction))
    ensures
        drive_start_spec(clients.entries@, provider, code, state, cookie, registrar_session, r),
{
    let c = match clients.get(&provider) {
        None => {
            return fail(AuthError::UnsupportedProvider(Message::from_str("Auth client not found")));
        },
        Some(c) => c,
    };
    let project_id = match ProjectId::try_from_str(state.as_str()) {
        Err(err) => {
            return fail(err);
        },
        Ok(p) => p,
    };
    let id = match session_id(cookie) {
        Err(err) => {
            return fail(err);
        },
        Ok(id) => id,
    };
    match registrar_session {
        None => fail(AuthError::MissingSession(Message::from_str("missing registrar session cookie"))),
        Some(rs) => (
            DriveState::AwaitingSession {
                code,
                state,
                provider,
                project_id,
                token_url: c.client.token_url.as_str().to_owned(),
                registrar_session: rs,
            },
            DriveAction::LoadSession { session_id: id },
        ),
    }
}

/// Takes one step of a drive callback.
pub fn drive_step(s: DriveState, e: DriveEvent) -> (r: (DriveState, DriveAction))
    ensures
        drive_next(s, e, r),
{
    match (s, e) {
        (
            DriveState::AwaitingSession { code, state, provider, project_id, token_url, registrar_session },
            DriveEvent::SessionLoaded { record },
        ) => {
            let Validators { pkce_verifier, csrf_token } = match retrieve_validators(record) {
                Err(err) => {
                    return fail(err);
                },
                Ok(v) => v,
            };
            if !str_eq(csrf_token.as_str(), state.as_str()) {
                return fail(AuthError::InvalidResponse(Message::from_str("state does not match the session")));
            }
            (
                DriveState::AwaitingToken { provider, project_id, token_url, registrar_session },
                DriveAction::ExchangeCode { code, pkce_verifier },
            )
        },
        (
            DriveState::AwaitingToken { provider, project_id, token_url, registrar_session },
            DriveEvent::TokenIssued { result },
        ) => {
            match result {
                Err(err) => fail(err),
                Ok(resp) => {
                    let token = Builder::new(resp, Some(token_url)).build(&project_id, &provider);
                    (
                        DriveState::AwaitingRegistration { project_id },
                        DriveAction::RegisterToken { token, registrar_session },
                    )
                },
            }
        },
        (DriveState::AwaitingRegistration { project_id }, DriveEvent::TokenRegistered { result }) => {
            match result {
                Err(err) => fail(err),
                Ok(()) => (DriveState::Done, DriveAction::Complete { project_id }),
            }
        },
        _ => fail(AuthError::InternalError(Message::from_str("event does not answer the last action"))),
    }
}

/// The project id a drive flow started with comes back out of its state: a
/// callback whose state is the text of project `x` carries `x` itself.
pub proof fn lemma_state_carries_project(
    entries: Seq<(DriveProvider, DriveClient)>,
    provider: DriveProvider,
    x: ProjectId,
    code: String,
    state: String,
    cookie: Option<String>,
    registrar_session: Option<String>,
    r: (DriveState, DriveAction),
)
    requires
        state@ == hyphenated_text(x@),
        drive_start_spec(entries, provider, code, state, cookie, registrar_session, r),
    ensures
        r.0 is AwaitingSession ==> r.0->AwaitingSession_project_id@ == x@,
        find_drive(entries, provider) is Some && cookie is Some && registrar_session is Some
            ==> r.0 is AwaitingSession,
{
    lemma_project_id_round_trip(x);
}

/// A state that is not a UUID text fails with a project-id error, for any
/// registered provider, whatever cookies came along.
pub proof fn lemma_bad_state_fails(
    entries: Seq<(DriveProvider, DriveClient)>,
    provider: DriveProvider,
    code: String,
    state: String,
    cookie: Option<String>,
    registrar_session: Option<String>,
    r: (DriveState, DriveAction),
)
    requires
        find_drive(entries, provider) is Some,
        !is_uuid_text(state@),
        drive_start_spec(entries, provider, code, state, cookie, registrar_session, r),
    ensures
        r.0 is Done,
        r.1 is Fail,
        r.1->Fail_error is ProjectIdError,
{
}

} // verus!
