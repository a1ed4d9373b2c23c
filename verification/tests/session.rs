use matrix_sdk_ffi::error::ClientError;
use matrix_sdk_ffi::json::JsonError;
use matrix_sdk_ffi::session::{
    AuthApi, AuthSession, OidcPrompt, OidcSessionData, Session, SessionTokens,
    SlidingSyncVersion, UserSession,
};

fn user() -> UserSession {
    UserSession {
        user_id: "@a:b.c".to_owned(),
        device_id: "DEVICE".to_owned(),
        tokens: SessionTokens {
            access_token: "access".to_owned(),
            refresh_token: Some("refresh".to_owned()),
        },
    }
}

fn new_session(auth_api: AuthApi) -> Result<Session, ClientError> {
    Session::new(auth_api, "https://b.c".to_owned(), SlidingSyncVersion::Native)
}

fn error_text(error: ClientError) -> String {
    match error {
        ClientError::Generic { msg, details } => {
            assert_eq!(details.as_deref(), Some(msg.as_str()));
            msg
        }
        _ => panic!(),
    }
}

#[test]
fn sessions_are_kept() {
    let session = new_session(AuthApi::Matrix { session: Some(user()) }).ok().unwrap();
    assert_eq!(session.access_token, "access");
    assert_eq!(session.refresh_token.as_deref(), Some("refresh"));
    assert_eq!(session.user_id, "@a:b.c");
    assert_eq!(session.device_id, "DEVICE");
    assert_eq!(session.homeserver_url, "https://b.c");
    assert_eq!(session.oidc_data, None);
    assert_eq!(session.sliding_sync_version, SlidingSyncVersion::Native);
    let tokens = session.into_tokens();
    assert_eq!(tokens.access_token, "access");
    assert_eq!(tokens.refresh_token.as_deref(), Some("refresh"));
}

#[test]
fn oidc_data_is_json() {
    let api = AuthApi::OAuth { session: Some(user()), client_id: Some("a\"b\n".to_owned()) };
    let data = new_session(api).ok().unwrap().oidc_data.unwrap();
    let value: serde_json::Value = serde_json::from_str(&data).unwrap();
    assert_eq!(value["client_id"], "a\"b\n");
    assert_eq!(value.as_object().unwrap().len(), 1);
    assert_eq!(data, "{\"client_id\":\"a\\\"b\\n\"}");
}

#[test]
fn sessions_that_cannot_be_kept() {
    assert_eq!(
        error_text(new_session(AuthApi::Matrix { session: None }).err().unwrap()),
        "Missing session"
    );
    let api = AuthApi::OAuth { session: None, client_id: Some("c".to_owned()) };
    assert_eq!(error_text(new_session(api).err().unwrap()), "Missing session");
    let api = AuthApi::OAuth { session: Some(user()), client_id: None };
    assert_eq!(error_text(new_session(api).err().unwrap()), "OIDC client ID is missing.");
    assert_eq!(
        error_text(new_session(AuthApi::Unknown).err().unwrap()),
        "Unknown authentication API"
    );
}

#[test]
fn sessions_are_taken_up_again() {
    let session = new_session(AuthApi::Matrix { session: Some(user()) }).ok().unwrap();
    match AuthSession::try_from(session, None) {
        Ok(AuthSession::Matrix { user: again }) => {
            assert_eq!(again.user_id, user().user_id);
            assert_eq!(again.device_id, user().device_id);
            assert_eq!(again.tokens.access_token, user().tokens.access_token);
            assert_eq!(again.tokens.refresh_token, user().tokens.refresh_token);
        }
        _ => panic!(),
    }

    let api = || AuthApi::OAuth { session: Some(user()), client_id: Some("c".to_owned()) };
    let session = new_session(api()).ok().unwrap();
    let data = OidcSessionData { client_id: "c".to_owned() };
    assert!(matches!(
        AuthSession::try_from(session, Some(Ok(data))),
        Ok(AuthSession::OAuth { ref client_id, .. }) if client_id == "c"
    ));

    let session = new_session(api()).ok().unwrap();
    let refused = JsonError { message: "m".to_owned(), debug: "d".to_owned() };
    assert!(matches!(
        AuthSession::try_from(session, Some(Err(refused))),
        Err(ClientError::Generic { ref msg, details: Some(ref details) }) if msg == "m" && details == "d"
    ));

    let mut session = new_session(AuthApi::Matrix { session: Some(user()) }).ok().unwrap();
    session.user_id = "nobody".to_owned();
    assert!(AuthSession::try_from(session, None).is_err());
}

#[test]
fn prompts_go_by_their_names() {
    for (name, is_known) in
        [("create", true), ("login", true), ("consent", true), ("select_account", false)]
    {
        let prompt = OidcPrompt::from(name);
        assert_eq!(prompt.as_str(), name);
        assert_eq!(!matches!(prompt, OidcPrompt::Unknown { .. }), is_known);
    }
    assert!(matches!(OidcPrompt::from("create"), OidcPrompt::Create));
    assert!(matches!(OidcPrompt::from("login"), OidcPrompt::Login));
    assert!(matches!(OidcPrompt::from("consent"), OidcPrompt::Consent));
}

#[test]
fn control_characters_are_escaped() {
    let client_id = "\u{8}\t\u{b}\u{c}\r\u{0}\u{1f}\\/\u{7f}é";
    let api = AuthApi::OAuth { session: Some(user()), client_id: Some(client_id.to_owned()) };
    assert_eq!(
        new_session(api).ok().unwrap().oidc_data.unwrap(),
        "{\"client_id\":\"\\b\\t\\u000b\\f\\r\\u0000\\u001f\\\\/\u{7f}é\"}"
    );
}
