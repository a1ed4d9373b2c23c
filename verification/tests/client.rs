use matrix_sdk_ffi::authentication::{OidcConfiguration, OidcError};
use matrix_sdk_ffi::client::{
    can_deactivate_account, check_preview_of_room_alias, check_preview_of_room_id, get_url,
    ignored_users, initial_send_queue_updates, is_livekit_rtc_supported,
    is_login_with_qr_code_supported, is_report_room_api_supported, login_with_oidc_callback,
    may_have_account_url, resolve_room_alias, restore_session, restore_session_with,
    room_alias_exists, store_file_error, url_for_oidc, CacheStep, Client, ControllerStep,
    JoinTarget, RequestFailure, ResolvedRoomAlias, RoomInfoWatch, RoomLoadSettings, RtcFocus,
    SessionChange, UrlResponse, UserProfile,
};
use matrix_sdk_ffi::client_login_builder::{ClientLoginBuilder, LoginMethod, LoginRequest};
use matrix_sdk_ffi::error::ClientError;
use matrix_sdk_ffi::json::JsonError;
use matrix_sdk_ffi::send_queue::RoomSendQueueUpdate;
use matrix_sdk_ffi::session::{
    AuthApi, AuthSession, OidcPrompt, OidcSessionData, Session, SessionTokens, SlidingSyncVersion,
    UserSession,
};
use ruma::RoomId;

fn client(store_path: Option<&str>) -> Client {
    let made = Client::new(
        Some("@alice:example.org:8448".to_owned()),
        Some("DEVICE".to_owned()),
        "https://example.org/".to_owned(),
        SlidingSyncVersion::Native,
        false,
        false,
        store_path.map(str::to_owned),
    );
    made.ok().unwrap().0
}

fn anonymous() -> Client {
    let made = Client::new(
        None,
        None,
        "https://example.org/".to_owned(),
        SlidingSyncVersion::NoVersion,
        false,
        false,
        None,
    );
    made.ok().unwrap().0
}

fn generic(error: ClientError) -> (String, Option<String>) {
    match error {
        ClientError::Generic { msg, details } => (msg, details),
        ClientError::MatrixApi { .. } => panic!("the error is not from the API"),
    }
}

fn texts(names: &[&str]) -> Vec<String> {
    names.iter().map(|name| name.to_string()).collect()
}

fn user_session() -> UserSession {
    UserSession {
        user_id: "@alice:example.org".to_owned(),
        device_id: "DEVICE".to_owned(),
        tokens: SessionTokens {
            access_token: "access".to_owned(),
            refresh_token: Some("refresh".to_owned()),
        },
    }
}

fn json_error() -> JsonError {
    JsonError { message: "no JSON".to_owned(), debug: "NoJson".to_owned() }
}

#[test]
fn refresh_lock_needs_session_delegates() {
    let new = |lock, delegate| {
        let home = "https://example.org/".to_owned();
        Client::new(None, None, home, SlidingSyncVersion::Native, lock, delegate, None)
    };
    let (msg, _) = generic(new(true, false).err().unwrap());
    assert_eq!(msg, "missing session delegates when enabling the cross-process lock");
    let setup = new(true, true).ok().unwrap().1;
    assert!(setup.enable_refresh_lock && setup.set_session_callbacks);
    let setup = new(false, false).ok().unwrap().1;
    assert!(!setup.enable_refresh_lock && !setup.set_session_callbacks);
}

#[test]
fn there_is_one_delegate() {
    let mut client = client(None);
    let change = || SessionChange::UnknownToken { soft_logout: true };
    assert_eq!(client.process_session_change(change()), None);
    assert_eq!(client.set_delegate(false).ok(), Some(false));
    assert_eq!(client.set_delegate(true).ok(), Some(true));
    assert_eq!(
        generic(client.set_delegate(true).err().unwrap()),
        ("Delegate already initialized".to_owned(), None)
    );
    assert_eq!(client.process_session_change(change()), Some(true));
    assert_eq!(client.process_session_change(SessionChange::TokensRefreshed), None);
    assert!(client.set_utd_delegate().is_ok());
    assert!(client.set_utd_delegate().is_err());
}

#[test]
fn verification_controller_is_kept() {
    let mut client = client(None);
    assert!(matches!(
        client.get_session_verification_controller(),
        Ok(ControllerStep::FetchIdentity { user_id }) if user_id == "@alice:example.org:8448"
    ));
    assert!(!client.is_answered_request("m.key.verification.request"));
    let (msg, _) = generic(client.found_identity::<u8>(None).err().unwrap());
    assert_eq!(msg, "Failed retrieving user identity");
    assert_eq!(client.found_identity(Some(1)).ok(), Some(1));
    assert!(matches!(
        client.get_session_verification_controller(),
        Ok(ControllerStep::UseKept)
    ));
    assert!(client.is_answered_request("m.key.verification.request"));
    assert!(!client.is_answered_request("m.text"));
    let (msg, _) = generic(anonymous().get_session_verification_controller().err().unwrap());
    assert_eq!(msg, "Failed retrieving current user_id");
}

#[test]
fn client_knows_its_user() {
    let known = client(None);
    assert_eq!(known.user_id().ok().unwrap(), "@alice:example.org:8448");
    assert_eq!(known.user_id_server_name().ok().unwrap(), "example.org:8448");
    assert_eq!(known.device_id().ok().unwrap(), "DEVICE");
    let unknown = anonymous();
    assert_eq!(generic(unknown.user_id().err().unwrap()).0, "No User ID found");
    assert_eq!(generic(unknown.user_id_server_name().err().unwrap()).0, "No User ID found");
    assert!(unknown.device_id().is_err());
    assert_eq!(Client::display_name(Some("Alice".to_owned())).ok().unwrap(), "Alice");
    assert!(Client::display_name(None).is_err());
}

#[test]
fn session_is_that_of_the_login() {
    let api = AuthApi::Matrix { session: Some(user_session()) };
    let session = client(None).session(Some(api)).ok().unwrap();
    assert_eq!(session.access_token, "access");
    assert_eq!(session.homeserver_url, "https://example.org/");
    assert_eq!(session.oidc_data, None);
    let (msg, _) = generic(client(None).session(None).err().unwrap());
    assert_eq!(msg, "Missing authentication API");
}

fn kept_session(oidc_data: Option<&str>) -> Session {
    Session {
        access_token: "access".to_owned(),
        refresh_token: None,
        user_id: "@alice:example.org".to_owned(),
        device_id: "DEVICE".to_owned(),
        homeserver_url: "https://example.org/".to_owned(),
        oidc_data: oidc_data.map(str::to_owned),
        sliding_sync_version: SlidingSyncVersion::Native,
    }
}

#[test]
fn sessions_are_restored() {
    let restored = restore_session(kept_session(None), None).ok().unwrap();
    assert!(matches!(
        &restored.session,
        AuthSession::Matrix { user } if user.tokens.access_token == "access"
    ));
    assert!(matches!(restored.room_load_settings, RoomLoadSettings::All));
    assert!(matches!(restored.sliding_sync_version, SlidingSyncVersion::Native));
    let data = OidcSessionData { client_id: "client".to_owned() };
    let one = RoomLoadSettings::One { room_id: "!a:b.org".to_owned() };
    let restored = restore_session_with(kept_session(Some("{}")), Some(Ok(data)), one);
    let restored = restored.ok().unwrap();
    assert!(matches!(
        &restored.session,
        AuthSession::OAuth { client_id, .. } if client_id == "client"
    ));
    assert!(matches!(
        restored.room_load_settings,
        RoomLoadSettings::One { room_id } if room_id == "!a:b.org"
    ));
    assert!(restore_session(kept_session(Some("{")), Some(Err(json_error()))).is_err());
    let one = RoomLoadSettings::One { room_id: "a".to_owned() };
    assert_eq!(one.checked().err().unwrap(), RoomId::parse("a").unwrap_err().to_string());
    let one = RoomLoadSettings::One { room_id: "a".to_owned() };
    assert!(restore_session_with(kept_session(None), None, one).is_err());
}

fn oidc_configuration(redirect_uri: &str) -> OidcConfiguration {
    OidcConfiguration {
        client_name: None,
        redirect_uri: redirect_uri.to_owned(),
        client_uri: "https://example.org".to_owned(),
        logo_uri: None,
        tos_uri: None,
        policy_uri: None,
        contacts: None,
        static_registrations: vec![],
        dynamic_registrations_file: "/tmp/registrations".to_owned(),
    }
}

#[test]
fn oidc_login_is_prepared() {
    let login = url_for_oidc(
        &oidc_configuration("org.example:/callback"),
        Some(OidcPrompt::Consent),
        Some("alice".to_owned()),
        Some("DEVICE".to_owned()),
        None,
    );
    let login = login.ok().unwrap();
    assert_eq!(login.redirect_uri, "org.example:/callback");
    assert_eq!(login.prompt.as_deref(), Some("consent"));
    assert_eq!(login.login_hint.as_deref(), Some("alice"));
    assert_eq!(login.device_id.as_deref(), Some("DEVICE"));
    assert_eq!(login.registrations.registrations_file, "/tmp/registrations");
    let refused = url_for_oidc(&oidc_configuration("callback"), None, None, None, None);
    assert!(matches!(refused, Err(OidcError::MetadataInvalid | OidcError::CallbackUrlInvalid)));
    assert_eq!(
        login_with_oidc_callback("HTTPS://example.org").ok().unwrap(),
        "https://example.org/"
    );
    assert!(matches!(login_with_oidc_callback("a"), Err(OidcError::CallbackUrlInvalid)));
}

#[test]
fn waiting_events_are_told_first() {
    let echoes = vec![
        ("!a:b.org".to_owned(), texts(&["1", "2"])),
        ("!c:d.org".to_owned(), texts(&[])),
        ("!e:f.org".to_owned(), texts(&["3"])),
    ];
    let told: Vec<_> = initial_send_queue_updates(&echoes)
        .into_iter()
        .map(|(room, update)| match update {
            RoomSendQueueUpdate::NewLocalEvent { transaction_id } => (room, transaction_id),
            _ => panic!("{room}"),
        })
        .collect();
    let pair = |room: &str, id: &str| (room.to_owned(), id.to_owned());
    assert_eq!(told, vec![pair("!a:b.org", "1"), pair("!a:b.org", "2"), pair("!e:f.org", "3")]);
}

#[test]
fn failed_responses_are_errors() {
    let response = |is_success| UrlResponse {
        status: "404 Not Found".to_owned(),
        is_success,
        bytes: vec![1, 2],
        text: Some("gone".to_owned()),
    };
    assert_eq!(get_url(response(true)).ok(), Some(vec![1, 2]));
    assert_eq!(
        generic(get_url(response(false)).err().unwrap()),
        ("404 Not Found".to_owned(), Some("gone".to_owned()))
    );
}

#[test]
fn rooms_to_join_are_checked() {
    let target = JoinTarget::new("#a:b.org".to_owned(), texts(&["c.org"])).ok().unwrap();
    assert_eq!(target.room_id_or_alias, "#a:b.org");
    assert_eq!(target.server_names, texts(&["c.org"]));
    assert!(JoinTarget::new("a".to_owned(), texts(&[])).is_err());
    assert!(JoinTarget::new("!a:b.org".to_owned(), texts(&["no server"])).is_err());
    assert!(check_preview_of_room_id("!a:b.org", &texts(&["c.org"])).is_ok());
    assert!(check_preview_of_room_id("a", &texts(&["c.org"])).is_err());
    assert!(check_preview_of_room_id("!a:b.org", &texts(&["no server"])).is_err());
    assert!(check_preview_of_room_alias("#a:b.org").is_ok());
    assert!(check_preview_of_room_alias("!a:b.org").is_err());
}

#[test]
fn missing_aliases_are_no_errors() {
    let resolved =
        || ResolvedRoomAlias { room_id: "!a:b.org".to_owned(), servers: texts(&["b.org"]) };
    let failure = |errcode: Option<&str>| RequestFailure {
        errcode: errcode.map(str::to_owned),
        message: "failed".to_owned(),
        debug: "Failed".to_owned(),
    };
    let found = resolve_room_alias(Ok(resolved())).ok().unwrap().unwrap();
    assert_eq!(found.room_id, "!a:b.org");
    assert!(resolve_room_alias(Err(failure(Some("M_NOT_FOUND")))).ok().unwrap().is_none());
    assert_eq!(
        generic(resolve_room_alias(Err(failure(Some("M_FORBIDDEN")))).err().unwrap()),
        ("failed".to_owned(), Some("Failed".to_owned()))
    );
    assert_eq!(room_alias_exists(Ok(resolved())).ok(), Some(true));
    assert_eq!(room_alias_exists(Err(failure(Some("M_NOT_FOUND")))).ok(), Some(false));
    assert!(room_alias_exists(Err(failure(None))).is_err());
}

#[test]
fn features_are_recognised() {
    let oauth = || Some(AuthApi::OAuth { session: None, client_id: None });
    let matrix = || Some(AuthApi::Matrix { session: None });
    assert!(is_report_room_api_supported(&texts(&["v1.12", "v1.13"])));
    assert!(!is_report_room_api_supported(&texts(&["v1.12"])));
    let livekit = RtcFocus::LiveKit { service_url: "https://example.org".to_owned() };
    assert!(is_livekit_rtc_supported(&vec![RtcFocus::Other, livekit]));
    assert!(!is_livekit_rtc_supported(&vec![RtcFocus::Other]));
    assert!(can_deactivate_account(&matrix()));
    assert!(!can_deactivate_account(&oauth()));
    assert!(!can_deactivate_account(&None));
    assert!(may_have_account_url(&oauth()));
    assert!(!may_have_account_url(&matrix()));
    let feature = texts(&["org.matrix.msc4108"]);
    assert!(is_login_with_qr_code_supported(&oauth(), &feature));
    assert!(!is_login_with_qr_code_supported(&matrix(), &feature));
    assert!(!is_login_with_qr_code_supported(&oauth(), &texts(&[])));
}

#[test]
fn files_are_removed_last() {
    let names = |steps: Vec<CacheStep>| {
        steps
            .into_iter()
            .map(|step| match step {
                CacheStep::ExpireSessions => "expire".to_owned(),
                CacheStep::DisableSendQueues => "disable".to_owned(),
                CacheStep::CleanMedia => "clean".to_owned(),
                CacheStep::ClearEventCache => "clear".to_owned(),
                CacheStep::RemoveStoreFile { name } => name,
            })
            .collect::<Vec<_>>()
    };
    assert_eq!(
        names(client(Some("/store")).clear_caches(true, "state.db")),
        texts(&["expire", "disable", "clean", "clear", "state.db", "state.db.wal", "state.db.shm"])
    );
    assert_eq!(
        names(client(None).clear_caches(false, "state.db")),
        texts(&["disable", "clean", "clear"])
    );
    assert_eq!(
        generic(store_file_error("/store/state.db", "busy")),
        ("couldn't delete the state store file /store/state.db: busy".to_owned(), None)
    );
}

#[test]
fn watched_rooms_are_told_apart() {
    let watch = RoomInfoWatch::new("!a:b.org".to_owned()).ok().unwrap();
    assert!(watch.concerns("!a:b.org"));
    assert!(!watch.concerns("!c:d.org"));
    assert!(RoomInfoWatch::new("a".to_owned()).is_err());
}

#[test]
fn profiles_are_read() {
    let user = || "@alice:example.org".to_owned();
    let profile = UserProfile::fetched(user(), Ok(Some("Alice".to_owned())), Ok(None));
    let profile = profile.ok().unwrap();
    assert_eq!(profile.user_id, "@alice:example.org");
    assert_eq!(profile.display_name.as_deref(), Some("Alice"));
    assert_eq!(profile.avatar_url, None);
    let broken = UserProfile::fetched(user(), Ok(None), Err(json_error()));
    assert_eq!(
        generic(broken.err().unwrap()),
        ("no JSON".to_owned(), Some("NoJson".to_owned()))
    );
    assert!(UserProfile::fetched(user(), Err(json_error()), Ok(None)).is_err());
    assert_eq!(ignored_users(Some(texts(&["@a:b.org"]))), texts(&["@a:b.org"]));
    assert!(ignored_users(None).is_empty());
}

#[test]
fn login_with_a_token_is_json() {
    let request = LoginRequest::custom_login_with_jwt("a\"b\\c", None, Some("D".to_owned()));
    assert_eq!(request.device_id.as_deref(), Some("D"));
    match request.method {
        LoginMethod::Custom { login_type, data } => {
            assert_eq!(login_type, "org.matrix.login.jwt");
            let data: serde_json::Value = serde_json::from_str(&data).unwrap();
            assert_eq!(data.as_object().unwrap().len(), 1);
            assert_eq!(data["token"], "a\"b\\c");
        }
        _ => panic!("the login is a custom one"),
    }
}

#[test]
fn login_builder_is_used_once() {
    let request = LoginRequest::login("alice".to_owned(), "secret".to_owned(), None, None);
    let mut builder = ClientLoginBuilder::new(request)
        .device_id("DEVICE".to_owned())
        .initial_device_display_name("Phone".to_owned());
    let sent = builder.send().ok().unwrap();
    assert!(matches!(
        &sent.method,
        LoginMethod::Username { username, password } if username == "alice" && password == "secret"
    ));
    assert_eq!(sent.device_id.as_deref(), Some("DEVICE"));
    assert_eq!(sent.initial_device_display_name.as_deref(), Some("Phone"));
    assert_eq!(
        generic(builder.send().err().unwrap()),
        ("ClientLoginBuilder is already consumed".to_owned(), None)
    );
    let email =
        LoginRequest::login_with_email("a@b.org".to_owned(), "secret".to_owned(), None, None);
    assert!(matches!(email.method, LoginMethod::Email { address, .. } if address == "a@b.org"));
}

#[test]
fn account_data_is_set_as_it_is_written() {
    let content = " {\"a\" : 1e400, \"b\":[ 1 ] }\n".to_owned();
    let set = Client::set_account_data(content).ok().unwrap();
    assert_eq!(set, "{\"a\" : 1e400, \"b\":[ 1 ] }");

    let refused = Client::set_account_data("{\"a\":".to_owned()).err().unwrap();
    let ClientError::Generic { msg, details } = refused else { panic!("no JSON error") };
    assert_eq!(msg, "EOF while parsing a value at line 1 column 5");
    let details = details.unwrap();
    assert_eq!(details, "Error(\"EOF while parsing a value\", line: 1, column: 5)");
}
