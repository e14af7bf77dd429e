use oauth::config::{filesystem_endpoint, RUST_ENV};
use oauth::error::{decode, AuthError};
use oauth::files::{
    drop_box, google, ms_graph, File, MSGraphFileOrFolder, NaiveTimestamp, RawFile,
    RawFileDropBox, RawFileGoogle, RawFileMSGraph,
};
use oauth::filesystem::{
    classify_listing_status, finish_listing, listing_kind, listing_request, AuthDriveToken,
};
use oauth::message::Message;
use oauth::project_id::ProjectId;
use oauth::provider::{DriveProvider, Kind, OauthProvider};
use oauth::registry::{init, init_drive, DriveServer, FilesRequestConfig, OauthServer};
use oauth::session::retrieve_validators;
use oauth::user::{
    identity_shape, set_maybe_email, FromTwitter, RawFromAzure, RawFromDiscord, RawFromGithub,
    RawFromGoogle, RawFromTwitter, RawIdentity, User,
};
use oauth::user_registration::UserRegistration;

#[test]
fn project_id_round_trip() {
    let text = "550e8400-e29b-41d4-a716-446655440000";
    let pid = ProjectId::try_from_str(text).unwrap();
    assert_eq!(pid.to_string(), text);
    assert_eq!(ProjectId::try_from_str(&pid.to_string()).unwrap(), pid);
    assert_eq!(pid.as_bytes()[0], 0x55);
    assert_eq!(pid.as_bytes()[15], 0x00);
}

#[test]
fn project_id_other_forms() {
    let want = ProjectId::try_from_str("550e8400-e29b-41d4-a716-446655440000").unwrap();
    for form in [
        "550E8400-E29B-41D4-A716-446655440000",
        "550e8400e29b41d4a716446655440000",
        "{550e8400-e29b-41d4-a716-446655440000}",
        "urn:uuid:550e8400-e29b-41d4-a716-446655440000",
        "URN:UUID:550e8400-e29b-41d4-a716-446655440000",
    ] {
        assert_eq!(ProjectId::try_from_str(form).unwrap(), want, "{}", form);
    }
}

#[test]
fn project_id_rejects_non_uuid() {
    for bad in [
        "",
        "not-a-uuid",
        "550e8400-e29b-41d4-a716-44665544000",
        "550e8400-e29b-41d4-a716-44665544000g",
        "550e8400_e29b_41d4_a716_446655440000",
        "{550e8400-e29b-41d4-a716-446655440000",
    ] {
        let err = ProjectId::try_from_str(bad).unwrap_err();
        assert!(matches!(err, AuthError::ProjectIdError(_)), "{}", bad);
    }
}

#[test]
fn project_id_from_slice() {
    let bytes: Vec<u8> = (0u8..16).collect();
    let pid = ProjectId::try_from_slice(&bytes).unwrap();
    assert_eq!(pid.to_string(), "00010203-0405-0607-0809-0a0b0c0d0e0f");
    assert!(matches!(
        ProjectId::try_from_slice(&bytes[..15]),
        Err(AuthError::ProjectIdError(_))
    ));
}

#[test]
fn providers_by_name() {
    assert_eq!(OauthProvider::from_str("linkedIn").unwrap(), OauthProvider::LinkedIn);
    assert_eq!(OauthProvider::github().to_path(), "github");
    assert_eq!(OauthProvider::linked_in().to_path(), "linkedIn");
    let err = OauthProvider::from_str("myspace").unwrap_err();
    assert!(matches!(err, AuthError::UnsupportedProvider(_)));
    assert_eq!(err.message().to_text(), "myspace");
    assert_eq!(OauthProvider::from_name("nope"), OauthProvider::Empty);
    assert_eq!(DriveProvider::from_str("msgraph").unwrap(), DriveProvider::MSGraph);
    assert_eq!(DriveProvider::user().to_path(), "empty");
    assert_eq!(DriveProvider::dropbox().to_path(), "dropbox");
    assert_eq!(DriveProvider::from_name("x"), DriveProvider::Empty);
    assert!(DriveProvider::from_str("x").is_err());
    assert_eq!(Kind::from_provider(DriveProvider::Luci), Kind::Empty);
    assert_eq!(Kind::from_provider(DriveProvider::Google), Kind::Google);
}

#[test]
fn error_statuses_and_labels() {
    let m = || Message::from_str("x");
    assert_eq!(AuthError::MissingSession(m()).status_code(), 204);
    assert_eq!(AuthError::MissingChallenge(m()).status_code(), 401);
    assert_eq!(AuthError::Unauthorized(m()).status_code(), 401);
    assert_eq!(AuthError::InternalError(m()).status_code(), 500);
    assert_eq!(AuthError::InvalidUrl(m()).status_code(), 404);
    assert_eq!(AuthError::ProjectIdError(m()).status_code(), 400);
    assert_eq!(AuthError::TncSessionResponseError(m()).status_code(), 400);
    assert_eq!(AuthError::UnsupportedProvider(m()).label(), "Invalid oauth provider");
    assert_eq!(AuthError::MissingSession(m()).label(), "Missing session");
}

#[test]
fn messages_drop_empty_text() {
    assert_eq!(Message::from_str(""), Message(None));
    assert_eq!(Message::from_string("hi".to_string()), Message(Some("hi".to_string())));
    assert_eq!(Message::verbatim(""), Message(Some(String::new())));
    assert!(matches!(decode(""), AuthError::JsonParsingError(Message(None))));
}

#[test]
fn internal_error_with_context() {
    let e = AuthError::new("Boom", Some("while loading".to_string()));
    assert_eq!(e, AuthError::InternalError(Message(Some("while loading\nBoom".to_string()))));
    let e = AuthError::new("Boom", None);
    assert_eq!(e.message().to_text(), "Boom");
    assert_eq!(e.clone().trace(), e);
    assert_eq!(e.clone().trace_with_more(Some("ctx"), None), e);
}

#[test]
fn normalize_google() {
    let raw = RawIdentity::Google(RawFromGoogle {
        id: "1234".into(),
        provider: OauthProvider::Google,
        email: "a@b.c".into(),
        verified_email: true,
        given_name: None,
        family_name: None,
        locale: None,
    });
    let user = raw.normalize();
    assert_eq!(user.provider_id.id, "1234");
    assert_eq!(user.email.as_deref(), Some("a@b.c"));
    assert_eq!(user.username, None);
}

#[test]
fn normalize_twice_is_identical() {
    let raw = RawIdentity::Discord(RawFromDiscord {
        id: "80351110224678912".into(),
        provider: OauthProvider::Discord,
        email: "nelly@discord.com".into(),
        username: "Nelly".into(),
        verified: true,
        locale: "en-US".into(),
        name: None,
    });
    let a = UserRegistration::from_raw_user(raw.clone().normalize());
    let b = UserRegistration::from_raw_user(raw.normalize());
    assert_eq!(a, b);
    assert_eq!(a.auth_id, "80351110224678912");
    assert_eq!(a.email.as_deref(), Some("nelly@discord.com"));
}

#[test]
fn normalize_keeps_local_id() {
    let raw = RawIdentity::Twitter(RawFromTwitter {
        data: FromTwitter {
            id: "43467549".into(),
            provider: OauthProvider::Twitter,
            username: "tw".into(),
            name: None,
        },
    });
    let user = raw.normalize_with_id([7u8; 16]);
    assert_eq!(user.id, [7u8; 16]);
    assert_eq!(user.username.as_deref(), Some("tw"));
    assert_eq!(user.email, None);
    let reg = UserRegistration::from_raw_user(user);
    assert_eq!(reg.auth_agent, OauthProvider::Twitter);
}

#[test]
fn normalize_github_number_and_empty_email() {
    let raw = RawIdentity::Github(RawFromGithub {
        id: 0,
        provider: OauthProvider::Github,
        email: "".into(),
        login: "z".into(),
        name: None,
        location: None,
    });
    let user = raw.normalize();
    assert_eq!(user.provider_id.id, "0");
    assert_eq!(user.email, None);
    let raw = RawIdentity::Github(RawFromGithub {
        id: 4294967295,
        provider: OauthProvider::Github,
        email: "x@y.z".into(),
        login: "z".into(),
        name: None,
        location: None,
    });
    let user = raw.normalize();
    assert_eq!(user.provider_id.id, "4294967295");
    assert_eq!(user.email.as_deref(), Some("x@y.z"));
}

#[test]
fn normalize_azure() {
    let raw = RawIdentity::Azure(RawFromAzure {
        id: "az".into(),
        provider: OauthProvider::Azure,
        mail: None,
        user_principal_name: Some("p".into()),
        display_name: Some("Dee".into()),
        given_name: None,
        family_name: None,
    });
    let user = raw.normalize();
    assert_eq!(user.email, None);
    assert_eq!(user.username.as_deref(), Some("Dee"));
    let full = User::from_raw(
        oauth::user::RawUser { email: Some("e".into()), ..user },
        1_600_000_000,
    );
    assert_eq!(full.username, "Dee");
    assert_eq!(full.created_on, 1_600_000_000);
}

#[test]
fn maybe_email() {
    assert_eq!(set_maybe_email(&String::new()), None);
    assert_eq!(set_maybe_email(&"a".to_string()), Some("a".to_string()));
}

#[test]
fn identity_shapes() {
    assert!(identity_shape(OauthProvider::LinkedIn).is_ok());
    assert!(matches!(
        identity_shape(OauthProvider::Facebook),
        Err(AuthError::UnsupportedProvider(_))
    ));
    assert!(identity_shape(OauthProvider::Luci).is_err());
}

#[test]
fn google_files() {
    let builder = google(vec![
        RawFileGoogle {
            id: "1".into(),
            mime_type: "application/vnd.google-apps.folder".into(),
            created_time: "2021-11-12T11:52:17.000Z".into(),
            modified_time: "2021-11-13T11:52:17.000Z".into(),
            name: "docs".into(),
            size: None,
        },
        RawFileGoogle {
            id: "2".into(),
            mime_type: "text/csv".into(),
            created_time: "c".into(),
            modified_time: "m".into(),
            name: "target_list.csv".into(),
            size: Some("2211054".into()),
        },
    ]);
    let files = finish_listing(builder);
    assert_eq!(files.kind, Kind::Google);
    assert_eq!(files.path.as_deref(), Some("root"));
    assert_eq!(files.drive_id.as_deref(), Some("test_drive"));
    assert_eq!(files.files.len(), 2);
    assert!(files.files[0].is_directory);
    assert!(!files.files[1].is_directory);
    assert_eq!(files.files[0].created_time.as_deref(), Some("2021-11-12T11:52:17.000Z"));
    assert_eq!(files.files[1].size.as_deref(), Some("2211054"));
    assert_eq!(files.files[1].name, "target_list.csv");
}

#[test]
fn msgraph_files() {
    let files = finish_listing(ms_graph(vec![
        RawFileMSGraph {
            created_time: "c".into(),
            modified_time: "m".into(),
            id: "f".into(),
            name: "Folder".into(),
            file_or_folder: MSGraphFileOrFolder::Folder,
            size: Some(1024),
        },
        RawFileMSGraph {
            created_time: "c".into(),
            modified_time: "m".into(),
            id: "g".into(),
            name: "a.txt".into(),
            file_or_folder: MSGraphFileOrFolder::File { mime_type: "text/plain".into() },
            size: None,
        },
    ]));
    assert_eq!(files.kind, Kind::MSGraph);
    assert!(files.files[0].is_directory);
    assert_eq!(files.files[0].mime_type, "folder");
    assert_eq!(files.files[0].size.as_deref(), Some("1024"));
    assert!(!files.files[1].is_directory);
    assert_eq!(files.files[1].mime_type, "text/plain");
    assert_eq!(files.files[1].size, None);
}

#[test]
fn dropbox_files() {
    let files = finish_listing(drop_box(vec![
        RawFileDropBox {
            id: "id:a".into(),
            mime_type: "folder".into(),
            name: "Photos".into(),
            client_modified: None,
            server_modified: None,
            size: None,
        },
        RawFileDropBox {
            id: "id:b".into(),
            mime_type: "file".into(),
            name: "a.csv".into(),
            client_modified: Some(NaiveTimestamp { secs: 1636717937, nanos: 0 }),
            server_modified: None,
            size: Some("10".into()),
        },
    ]));
    assert_eq!(files.kind, Kind::DropBox);
    assert!(files.files[0].is_directory);
    assert!(!files.files[1].is_directory);
    assert_eq!(files.files[1].modified_time.as_deref(), Some("2021-11-12 11:52:17"));
    assert_eq!(files.files[1].created_time, None);
}

#[test]
fn file_from_single_entry() {
    let f = File::from_raw(RawFile::DropBox(RawFileDropBox {
        id: "x".into(),
        mime_type: "file".into(),
        name: "n".into(),
        client_modified: Some(NaiveTimestamp { secs: 0, nanos: 500_000_000 }),
        server_modified: None,
        size: None,
    }));
    assert_eq!(f.modified_time.as_deref(), Some("1970-01-01 00:00:00.500"));
}

#[test]
fn listing_status_classes() {
    assert!(classify_listing_status(200).is_ok());
    assert!(classify_listing_status(204).is_ok());
    let e = classify_listing_status(401).unwrap_err();
    assert!(matches!(e, AuthError::Unauthorized(_)));
    assert_eq!(e.status_code(), 401);
    let e = classify_listing_status(500).unwrap_err();
    assert!(matches!(e, AuthError::InternalError(_)));
    assert_eq!(e.message().to_text(), "500");
    assert!(matches!(classify_listing_status(403), Err(AuthError::InternalError(_))));
}

#[test]
fn listing_kinds() {
    assert_eq!(listing_kind(DriveProvider::MSGraph).unwrap(), Kind::MSGraph);
    assert!(matches!(listing_kind(DriveProvider::User), Err(AuthError::InternalError(_))));
}

fn drive_server(auth: &str) -> DriveServer {
    DriveServer {
        auth_uri: auth.to_string(),
        token_uri: "https://oauth2.googleapis.com/token".to_string(),
        client_id: "id".to_string(),
        client_secret: "s".to_string(),
        project_id: Some("p".to_string()),
        scopes: vec!["https://www.googleapis.com/auth/drive.readonly".to_string()],
        files_request: FilesRequestConfig {
            method: Some("get".to_string()),
            drive_server: "https://www.googleapis.com".to_string(),
            endpoint: "/drive/v3/files".to_string(),
            query_ls: "?q=%27root%27".to_string(),
            query_read: None,
            json_body_ls: None,
        },
    }
}

#[test]
fn registry_builds_redirects_and_requests() {
    let clients = init_drive(
        "http://localhost:3099/drive/authorized",
        &vec![(DriveProvider::Google, drive_server("https://accounts.google.com/o/oauth2/auth"))],
    )
    .unwrap();
    let c = clients.get(&DriveProvider::Google).unwrap();
    assert_eq!(c.client.redirect_url, "http://localhost:3099/drive/authorized/google");
    assert_eq!(c.files_request.method, "get");
    assert!(clients.get(&DriveProvider::DropBox).is_none());
    let req = listing_request(
        &clients,
        DriveProvider::Google,
        &AuthDriveToken { access_token: "tok".into() },
    )
    .unwrap();
    assert_eq!(req.url, "https://www.googleapis.com/drive/v3/files?q=%27root%27");
    assert_eq!(req.authorization, "Bearer tok");
    assert_eq!(req.method, "get");
    assert!(matches!(
        listing_request(&clients, DriveProvider::MSGraph, &AuthDriveToken { access_token: "t".into() }),
        Err(AuthError::UnsupportedProvider(_))
    ));
}

#[test]
fn registry_defaults_listing_method_to_post() {
    let mut server = drive_server("https://www.dropbox.com/oauth2/authorize");
    server.files_request.method = None;
    let clients = init_drive("http://h/d", &vec![(DriveProvider::DropBox, server)]).unwrap();
    assert_eq!(clients.get(&DriveProvider::DropBox).unwrap().files_request.method, "post");
}

#[test]
fn registry_rejects_bad_urls() {
    let bad = init_drive("http://h/d", &vec![(DriveProvider::Google, drive_server("not a url"))]);
    assert!(matches!(bad, Err(AuthError::InvalidUrl(_))));
    let server = OauthServer {
        auth_url: "https://a.example/auth".into(),
        token_url: "::".into(),
        client_id: "c".into(),
        client_secret: "s".into(),
        identity_server: "https://a.example/me".into(),
        revocation_url: None,
        scope: "".into(),
    };
    assert!(matches!(
        init("http://h/a", &vec![(OauthProvider::Azure, server)]),
        Err(AuthError::InvalidUrl(_))
    ));
    assert!(init("relative/path", &vec![]).unwrap().entries.is_empty());
}

#[test]
fn validators_of_records() {
    assert!(matches!(retrieve_validators(None), Err(AuthError::MissingSession(_))));
}

#[test]
fn run_modes() {
    assert_eq!(RUST_ENV::from_str("Production"), RUST_ENV::Production);
    assert_eq!(RUST_ENV::from_str("Testing"), RUST_ENV::Testing);
    assert_eq!(RUST_ENV::from_str("production"), RUST_ENV::Development);
    assert_eq!(RUST_ENV::Testing.as_str(), "Testing");
}

#[test]
fn filesystem_locations() {
    let pid = ProjectId::try_from_str("11111111-1111-1111-1111-111111111111").unwrap();
    assert_eq!(
        filesystem_endpoint("http://app/projects", Some(pid)),
        "http://app/projects/11111111-1111-1111-1111-111111111111/files"
    );
    assert_eq!(filesystem_endpoint("http://app/projects", None), "http://app/projects/project_id/files");
}

#[test]
fn defaults_and_names() {
    assert_eq!(OauthProvider::default(), OauthProvider::Empty);
    assert_eq!(DriveProvider::default(), DriveProvider::Empty);
    assert_eq!(Kind::default(), Kind::Empty);
    assert_eq!(OauthProvider::LinkedIn.display_name(), "LinkedIn");
    let r = oauth::provider::AuthFailedRedirect::new(&OauthProvider::Github);
    assert_eq!(r.uri, "/auth/Github");
}

#[test]
fn fresh_identities_differ() {
    let a = oauth::user::ProviderId::default();
    let b = oauth::user::ProviderId::default();
    assert_eq!(a.provider, OauthProvider::Luci);
    assert_ne!(a.id, b.id);
    assert!(ProjectId::try_from_str(&a.id).is_ok());
    let u = oauth::user::RawUser::default();
    assert_eq!(u.email, None);
    assert_eq!(u.username, None);
}

#[test]
fn user_created_now() {
    let raw = oauth::user::RawUser {
        id: [1u8; 16],
        username: Some("u".into()),
        email: Some("e@x".into()),
        provider_id: oauth::user::ProviderId { id: "9".into(), provider: OauthProvider::Luci },
    };
    let user = User::from_raw_now(raw);
    assert_eq!(user.email, "e@x");
    assert!(user.created_on > 1_600_000_000);
}

#[test]
fn normalize_luci_and_linkedin() {
    let raw = RawIdentity::Luci(oauth::user::RawFromLuci {
        id: 42,
        provider: OauthProvider::Luci,
        email: "".into(),
        username: "me".into(),
        name: None,
    });
    let u = raw.normalize();
    assert_eq!(u.provider_id.id, "42");
    assert_eq!(u.email.as_deref(), Some(""));
    let raw = RawIdentity::LinkedIn(oauth::user::RawFromLinkedIn {
        id: "li".into(),
        provider: OauthProvider::LinkedIn,
        username: "lu".into(),
        name: None,
    });
    let u = raw.normalize();
    assert_eq!(u.username.as_deref(), Some("lu"));
    assert_eq!(u.email, None);
}
