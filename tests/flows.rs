use oauth::authorize::{authorize_drive, authorize_login, initiate, initiate_drive, request_location};
use oauth::drive::{drive_start, drive_step, DriveAction, DriveEvent, DriveState};
use oauth::drive_token::TokenResponse;
use oauth::error::AuthError;
use oauth::login::{login_start, login_step, LoginAction, LoginEvent, LoginState};
use oauth::project_id::ProjectId;
use oauth::provider::{DriveProvider, OauthProvider};
use oauth::registry::{
    init, init_drive, DriveClients, DriveServer, FilesRequestConfig, OauthClients, OauthServer,
};
use oauth::session::{session_cookie, FlowSession};
use oauth::user::{RawFromGithub, RawIdentity};

const VERIFIER: &str = "dBjftJeZ4CVP-mJ92K9qpvxWfLvJNRsJvnNNqlgYoLs";
const PROJECT: &str = "11111111-1111-1111-1111-111111111111";

fn google_server() -> OauthServer {
    OauthServer {
        auth_url: "https://accounts.google.com/o/oauth2/v2/auth".to_string(),
        token_url: "https://oauth2.googleapis.com/token".to_string(),
        client_id: "abc".to_string(),
        client_secret: "shh".to_string(),
        identity_server: "https://www.googleapis.com/oauth2/v2/userinfo".to_string(),
        revocation_url: None,
        scope: "email profile".to_string(),
    }
}

fn github_server() -> OauthServer {
    OauthServer {
        auth_url: "https://github.com/login/oauth/authorize".to_string(),
        token_url: "https://github.com/login/oauth/access_token".to_string(),
        client_id: "gh".to_string(),
        client_secret: "shh".to_string(),
        identity_server: "https://api.github.com/user".to_string(),
        revocation_url: None,
        scope: "read:user".to_string(),
    }
}

fn oauth_clients() -> OauthClients {
    init(
        "http://localhost:3099/auth/authorized",
        &vec![
            (OauthProvider::Google, google_server()),
            (OauthProvider::Github, github_server()),
        ],
    )
    .unwrap()
}

fn dropbox_server() -> DriveServer {
    DriveServer {
        auth_uri: "https://www.dropbox.com/oauth2/authorize".to_string(),
        token_uri: "https://api.dropboxapi.com/oauth2/token".to_string(),
        client_id: "dbx".to_string(),
        client_secret: "shh".to_string(),
        project_id: None,
        scopes: vec!["files.metadata.read".to_string(), "files.content.read".to_string()],
        files_request: FilesRequestConfig {
            method: None,
            drive_server: "https://api.dropboxapi.com".to_string(),
            endpoint: "/2/files/list_folder".to_string(),
            query_ls: "".to_string(),
            query_read: None,
            json_body_ls: None,
        },
    }
}

fn drive_clients() -> DriveClients {
    init_drive(
        "http://localhost:3099/drive/authorized",
        &vec![(DriveProvider::DropBox, dropbox_server())],
    )
    .unwrap()
}

fn query_has(location: &str, pair: &str) -> bool {
    let query = location.split('?').nth(1).unwrap_or("");
    query.split('&').any(|p| p == pair)
}

#[test]
fn google_authorize_has_consent_and_offline() {
    let clients = oauth_clients();
    let req = authorize_login(&clients, OauthProvider::Google, VERIFIER, "csrf123").unwrap();
    let location = request_location(&req).unwrap();
    assert!(location.starts_with("https://accounts.google.com/o/oauth2/v2/auth?"));
    assert!(query_has(&location, "access_type=offline"));
    assert!(query_has(&location, "prompt=consent"));
    assert!(query_has(&location, "client_id=abc"));
    assert!(query_has(&location, "scope=email+profile"));
    assert!(query_has(&location, "state=csrf123"));
    assert!(query_has(&location, "response_type=code"));
    assert!(query_has(&location, "code_challenge_method=S256"));
    assert!(query_has(
        &location,
        "redirect_uri=http%3A%2F%2Flocalhost%3A3099%2Fauth%2Fauthorized%2Fgoogle"
    ));
}

#[test]
fn pkce_challenge_is_the_s256_digest() {
    let clients = oauth_clients();
    let req = authorize_login(&clients, OauthProvider::Github, VERIFIER, "s").unwrap();
    let challenge = req
        .params
        .iter()
        .find(|(k, _)| k == "code_challenge")
        .map(|(_, v)| v.clone())
        .unwrap();
    assert_eq!(challenge, "f9Ee2YOf9z5ND5oZueMWX3tgt1o6DscTTGHRcd5ecb4");
    assert!(!req.params.iter().any(|(k, _)| k == "prompt"));
}

#[test]
fn initiate_draws_fresh_secrets() {
    let clients = oauth_clients();
    let a = initiate(&clients, OauthProvider::Google).unwrap();
    let b = initiate(&clients, OauthProvider::Google).unwrap();
    assert_eq!(a.pkce_verifier.len(), 43);
    assert_ne!(a.pkce_verifier, b.pkce_verifier);
    assert_ne!(a.csrf_token, b.csrf_token);
    assert!(query_has(&a.location, &format!("state={}", a.csrf_token)));
    assert!(a.location.contains("code_challenge="));
    assert!(!a.location.contains(&a.pkce_verifier));
}

#[test]
fn initiate_unknown_provider_is_400() {
    let clients = oauth_clients();
    let err = initiate(&clients, OauthProvider::Twitter).unwrap_err();
    assert!(matches!(err, AuthError::UnsupportedProvider(_)));
    assert_eq!(err.status_code(), 400);
}

#[test]
fn dropbox_authorize_carries_project_state() {
    let clients = drive_clients();
    let pid = ProjectId::try_from_str(PROJECT).unwrap();
    let init = initiate_drive(&clients, DriveProvider::DropBox, &pid).unwrap();
    assert!(init.location.starts_with("https://www.dropbox.com/oauth2/authorize?"));
    assert!(query_has(&init.location, "token_access_type=offline"));
    assert!(query_has(&init.location, &format!("state={}", PROJECT)));
    assert!(query_has(&init.location, "refresh_token_key=refresh_access"));
    assert!(query_has(&init.location, "scope=files.metadata.read+files.content.read"));
    assert_eq!(init.csrf_token, PROJECT);
    let req = authorize_drive(&clients, DriveProvider::DropBox, &pid, VERIFIER).unwrap();
    assert!(!req.params.iter().any(|(k, _)| k == "prompt"));
}

#[test]
fn initiate_drive_unknown_provider_is_400() {
    let clients = drive_clients();
    let pid = ProjectId::try_from_str(PROJECT).unwrap();
    let err = initiate_drive(&clients, DriveProvider::Google, &pid).unwrap_err();
    assert!(matches!(err, AuthError::UnsupportedProvider(_)));
    assert_eq!(err.status_code(), 400);
}

#[test]
fn session_cookie_directive() {
    assert_eq!(session_cookie("k3y"), "auth_session=k3y; SameSite=Lax; Path=/");
}

#[test]
fn callback_without_cookie_is_missing_session() {
    let clients = oauth_clients();
    let (state, action) =
        login_start(&clients, OauthProvider::Google, "code".into(), "csrf".into(), None);
    assert!(matches!(state, LoginState::Done));
    match action {
        LoginAction::Fail { error } => {
            assert!(matches!(error, AuthError::MissingSession(_)));
            assert_eq!(error.status_code(), 204);
        }
        other => panic!("unexpected {:?}", other),
    }
}

#[test]
fn callback_unknown_provider_is_unsupported() {
    let clients = oauth_clients();
    let (_, action) = login_start(
        &clients,
        OauthProvider::Azure,
        "code".into(),
        "csrf".into(),
        Some("key".into()),
    );
    assert!(matches!(action, LoginAction::Fail { error: AuthError::UnsupportedProvider(_) }));
}

fn loaded_session(record: Option<FlowSession>) -> LoginAction {
    let clients = oauth_clients();
    let (state, action) = login_start(
        &clients,
        OauthProvider::Github,
        "code".into(),
        "csrf".into(),
        Some("key".into()),
    );
    match &action {
        LoginAction::LoadSession { session_id } => assert_eq!(session_id, "key"),
        other => panic!("unexpected {:?}", other),
    }
    login_step(state, LoginEvent::SessionLoaded { record }).1
}

#[test]
fn callback_missing_pkce_is_missing_challenge() {
    let action = loaded_session(Some(FlowSession {
        pkce_verifier: None,
        csrf_token: Some("csrf".into()),
    }));
    assert!(matches!(action, LoginAction::Fail { error: AuthError::MissingChallenge(_) }));
}

#[test]
fn callback_missing_csrf_is_missing_challenge() {
    let action = loaded_session(Some(FlowSession {
        pkce_verifier: Some("v".into()),
        csrf_token: None,
    }));
    assert!(matches!(action, LoginAction::Fail { error: AuthError::MissingChallenge(_) }));
}

#[test]
fn callback_expired_record_is_missing_session() {
    let action = loaded_session(None);
    assert!(matches!(action, LoginAction::Fail { error: AuthError::MissingSession(_) }));
}

#[test]
fn callback_state_mismatch_is_rejected() {
    let action = loaded_session(Some(FlowSession::new("v".into(), "other".into())));
    assert!(matches!(action, LoginAction::Fail { error: AuthError::InvalidResponse(_) }));
}

#[test]
fn login_callback_runs_to_completion() {
    let clients = oauth_clients();
    let (state, _) = login_start(
        &clients,
        OauthProvider::Github,
        "the-code".into(),
        "csrf".into(),
        Some("key".into()),
    );
    let (state, action) = login_step(
        state,
        LoginEvent::SessionLoaded { record: Some(FlowSession::new("ver".into(), "csrf".into())) },
    );
    match &action {
        LoginAction::ExchangeCode { code, pkce_verifier } => {
            assert_eq!(code, "the-code");
            assert_eq!(pkce_verifier, "ver");
        }
        other => panic!("unexpected {:?}", other),
    }
    let (state, action) = login_step(state, LoginEvent::TokenIssued { result: Ok("tok".into()) });
    match &action {
        LoginAction::FetchIdentity { url, access_token, .. } => {
            assert_eq!(url, "https://api.github.com/user");
            assert_eq!(access_token, "tok");
        }
        other => panic!("unexpected {:?}", other),
    }
    let raw = RawIdentity::Github(RawFromGithub {
        id: 43467549,
        provider: OauthProvider::Github,
        email: "".into(),
        login: "octo".into(),
        name: None,
        location: None,
    });
    let (state, action) = login_step(state, LoginEvent::IdentityFetched { result: Ok(raw) });
    match &action {
        LoginAction::Register { registration } => {
            assert_eq!(registration.auth_agent, OauthProvider::Github);
            assert_eq!(registration.auth_id, "43467549");
            assert_eq!(registration.email, None);
        }
        other => panic!("unexpected {:?}", other),
    }
    let (state, action) =
        login_step(state, LoginEvent::Registered { result: Ok(Some("sid=1".into())) });
    assert!(matches!(state, LoginState::Done));
    match action {
        LoginAction::Complete { set_cookie } => assert_eq!(set_cookie, "sid=1"),
        other => panic!("unexpected {:?}", other),
    }
}

#[test]
fn registrar_without_cookie_is_missing_cookie() {
    let (_, action) =
        login_step(LoginState::AwaitingRegistration, LoginEvent::Registered { result: Ok(None) });
    assert!(matches!(action, LoginAction::Fail { error: AuthError::MissingCookie(_) }));
}

#[test]
fn token_failure_stops_login() {
    let clients = oauth_clients();
    let (state, _) = login_start(
        &clients,
        OauthProvider::Github,
        "c".into(),
        "csrf".into(),
        Some("key".into()),
    );
    let (state, _) = login_step(
        state,
        LoginEvent::SessionLoaded { record: Some(FlowSession::new("v".into(), "csrf".into())) },
    );
    let err = AuthError::TokenCreation(oauth::message::Message::from_str("rejected"));
    let (state, action) = login_step(state, LoginEvent::TokenIssued { result: Err(err) });
    assert!(matches!(state, LoginState::Done));
    assert!(matches!(action, LoginAction::Fail { error: AuthError::TokenCreation(_) }));
    let (_, action) = login_step(state, LoginEvent::TokenIssued { result: Ok("t".into()) });
    assert!(matches!(action, LoginAction::Fail { error: AuthError::InternalError(_) }));
}

#[test]
fn drive_callback_bad_state_is_project_id_error() {
    let clients = drive_clients();
    let (state, action) = drive_start(
        &clients,
        DriveProvider::DropBox,
        "code".into(),
        "not-a-uuid".into(),
        Some("key".into()),
        Some("tnc".into()),
    );
    assert!(matches!(state, DriveState::Done));
    match action {
        DriveAction::Fail { error } => {
            assert!(matches!(error, AuthError::ProjectIdError(_)));
            assert_eq!(error.status_code(), 400);
        }
        other => panic!("unexpected {:?}", other),
    }
    let (_, action) =
        drive_start(&clients, DriveProvider::DropBox, "code".into(), "not-a-uuid".into(), None, None);
    assert!(matches!(action, DriveAction::Fail { error: AuthError::ProjectIdError(_) }));
}

#[test]
fn drive_callback_recovers_project_and_registers_token() {
    let clients = drive_clients();
    let (state, action) = drive_start(
        &clients,
        DriveProvider::DropBox,
        "code".into(),
        PROJECT.into(),
        Some("key".into()),
        Some("tnc".into()),
    );
    match &state {
        DriveState::AwaitingSession { project_id, .. } => {
            assert_eq!(project_id.to_string(), PROJECT)
        }
        other => panic!("unexpected {:?}", other),
    }
    assert!(matches!(action, DriveAction::LoadSession { .. }));
    let (state, action) = drive_step(
        state,
        DriveEvent::SessionLoaded { record: Some(FlowSession::new("v".into(), PROJECT.into())) },
    );
    assert!(matches!(action, DriveAction::ExchangeCode { .. }));
    let resp = TokenResponse {
        access_token: "at".into(),
        token_type: "bearer".into(),
        expires_in: Some(14400),
        refresh_token: Some("rt".into()),
        scopes: None,
    };
    let (state, action) = drive_step(state, DriveEvent::TokenIssued { result: Ok(resp) });
    match &action {
        DriveAction::RegisterToken { token, registrar_session } => {
            assert_eq!(registrar_session, "tnc");
            assert_eq!(token.project_id.to_string(), PROJECT);
            assert_eq!(token.drive_provider, DriveProvider::DropBox);
            assert_eq!(token.access_token, "at");
            assert_eq!(token.expires_in, Some(14400));
            assert_eq!(token.token_uri.as_deref(), Some("https://api.dropboxapi.com/oauth2/token"));
        }
        other => panic!("unexpected {:?}", other),
    }
    let (state, action) = drive_step(state, DriveEvent::TokenRegistered { result: Ok(()) });
    assert!(matches!(state, DriveState::Done));
    match action {
        DriveAction::Complete { project_id } => assert_eq!(project_id.to_string(), PROJECT),
        other => panic!("unexpected {:?}", other),
    }
}

#[test]
fn drive_callback_without_registrar_cookie_is_missing_session() {
    let clients = drive_clients();
    let (_, action) = drive_start(
        &clients,
        DriveProvider::DropBox,
        "code".into(),
        PROJECT.into(),
        Some("key".into()),
        None,
    );
    assert!(matches!(action, DriveAction::Fail { error: AuthError::MissingSession(_) }));
}

#[test]
fn initiate_with_unparsable_authorize_url_is_invalid_url() {
    let mut clients = oauth_clients();
    clients.entries[0].1.client.auth_url = "no scheme here".to_string();
    let err = initiate(&clients, OauthProvider::Google).unwrap_err();
    assert!(matches!(err, AuthError::InvalidUrl(_)));
    assert_eq!(err.status_code(), 404);
}

#[test]
fn drive_callback_state_mismatch_is_rejected() {
    let clients = drive_clients();
    let (state, _) = drive_start(
        &clients,
        DriveProvider::DropBox,
        "code".into(),
        PROJECT.into(),
        Some("key".into()),
        Some("tnc".into()),
    );
    let other = "22222222-2222-2222-2222-222222222222";
    let (state, action) = drive_step(
        state,
        DriveEvent::SessionLoaded { record: Some(FlowSession::new("v".into(), other.into())) },
    );
    assert!(matches!(state, DriveState::Done));
    assert!(matches!(action, DriveAction::Fail { error: AuthError::InvalidResponse(_) }));
}

#[test]
fn drive_callback_unknown_provider_is_unsupported() {
    let clients = drive_clients();
    let (_, action) = drive_start(
        &clients,
        DriveProvider::Google,
        "code".into(),
        PROJECT.into(),
        Some("key".into()),
        Some("tnc".into()),
    );
    assert!(matches!(action, DriveAction::Fail { error: AuthError::UnsupportedProvider(_) }));
}
