use matrix_sdk_ffi::authentication::{
    sso_callback_url, sso_result, HomeserverLoginDetails, LoginError, LoginFlow, OAuthError,
    OAuthErrorKind, OidcConfiguration, OidcError, OidcRegistrationsError, SsoError, SsoOutcome,
};
use matrix_sdk_ffi::authentication_service::{
    AuthenticationError, BuildFailure, HomeserverLoginDetails as ServiceLoginDetails,
    OidcConfiguration as ServiceConfiguration,
};
use matrix_sdk_ffi::session::{OidcPrompt, SlidingSyncVersion};
use url::Url;

fn configuration() -> OidcConfiguration {
    OidcConfiguration {
        client_name: Some("Client".to_owned()),
        redirect_uri: "io.element:/callback".to_owned(),
        client_uri: "https://element.io".to_owned(),
        logo_uri: Some("https://element.io/logo.png".to_owned()),
        tos_uri: None,
        policy_uri: Some("https://element.io/policy".to_owned()),
        contacts: None,
        static_registrations: vec![
            ("https://id.example.org".to_owned(), "client-1".to_owned()),
            ("not a url".to_owned(), "client-2".to_owned()),
        ],
        dynamic_registrations_file: "/tmp/file".to_owned(),
    }
}

#[test]
fn what_a_homeserver_offers() {
    let details = HomeserverLoginDetails::new(
        "https://b.c".to_owned(),
        SlidingSyncVersion::Native,
        Some(vec!["create".to_owned(), "odd".to_owned()]),
        Some(vec![LoginFlow::Other, LoginFlow::Password]),
    );
    assert_eq!(details.url(), "https://b.c");
    assert_eq!(details.sliding_sync_version(), SlidingSyncVersion::Native);
    assert!(details.supports_oidc_login());
    assert!(details.supports_password_login());
    assert!(!details.supports_sso_login);
    let prompts = details.supported_oidc_prompts();
    assert_eq!(prompts.len(), 2);
    assert!(matches!(prompts[0], OidcPrompt::Create));
    assert_eq!(prompts[1].as_str(), "odd");

    let details = HomeserverLoginDetails::new(
        "https://b.c".to_owned(),
        SlidingSyncVersion::NoVersion,
        None,
        Some(vec![LoginFlow::Sso]),
    );
    assert!(!details.supports_oidc_login());
    assert!(details.supported_oidc_prompts().is_empty());
    assert!(details.supports_sso_login);
    assert!(!details.supports_password_login());

    let details = HomeserverLoginDetails::new(
        "https://b.c".to_owned(),
        SlidingSyncVersion::NoVersion,
        None,
        None,
    );
    assert!(!details.supports_sso_login && !details.supports_password_login());
}

#[test]
fn urls_are_read_in_their_normal_form() {
    let text = "HTTPS://Example.org";
    assert_eq!(sso_callback_url(text).ok().unwrap(), Url::parse(text).unwrap().to_string());
    assert_eq!(sso_callback_url(text).ok().unwrap(), "https://example.org/");
    assert!(matches!(sso_callback_url("not a url"), Err(SsoError::CallbackUrlInvalid)));
}

#[test]
fn sso_ends() {
    assert!(sso_result(SsoOutcome::LoggedIn).is_ok());
    assert!(matches!(sso_result(SsoOutcome::UrlRefused), Err(SsoError::CallbackUrlInvalid)));
    assert!(matches!(sso_result(SsoOutcome::LoginFailed), Err(SsoError::LoginWithTokenFailed)));
    assert_eq!(
        SsoError::CallbackUrlInvalid.to_string(),
        "The supplied callback URL used to complete SSO is invalid."
    );
    assert_eq!(
        SsoError::LoginWithTokenFailed.to_string(),
        "Logging in with the token from the supplied callback URL failed."
    );
    assert_eq!(SsoError::Generic { message: "m".to_owned() }.to_string(), "An error occurred: m");
}

#[test]
fn clients_are_registered() {
    let plan = configuration().registrations().ok().unwrap();
    assert_eq!(plan.registrations_file, "/tmp/file");
    assert_eq!(
        plan.static_registrations,
        [("https://id.example.org/".to_owned(), "client-1".to_owned())]
    );
    let metadata = plan.client_metadata;
    assert_eq!(metadata.client_name.as_deref(), Some("Client"));
    assert_eq!(metadata.redirect_uri, "io.element:/callback");
    assert_eq!(metadata.client_uri, "https://element.io/");
    assert_eq!(metadata.logo_uri.as_deref(), Some("https://element.io/logo.png"));
    assert_eq!(metadata.policy_uri.as_deref(), Some("https://element.io/policy"));
    assert_eq!(metadata.tos_uri, None);
}

#[test]
fn odd_uris_are_refused() {
    let mut odd = configuration();
    odd.redirect_uri = "odd".to_owned();
    odd.client_uri = "odd".to_owned();
    assert!(matches!(odd.client_metadata(), Err(OidcError::CallbackUrlInvalid)));
    assert!(matches!(odd.redirect_uri(), Err(OidcError::CallbackUrlInvalid)));

    let mut odd = configuration();
    odd.client_uri = "odd".to_owned();
    assert!(matches!(odd.client_metadata(), Err(OidcError::MetadataInvalid)));
    let mut odd = configuration();
    odd.tos_uri = Some("odd".to_owned());
    assert!(matches!(odd.registrations(), Err(OidcError::MetadataInvalid)));
    let mut odd = configuration();
    odd.logo_uri = Some("odd".to_owned());
    assert!(matches!(odd.client_metadata(), Err(OidcError::MetadataInvalid)));
    let mut odd = configuration();
    odd.policy_uri = Some("odd".to_owned());
    assert!(matches!(odd.client_metadata(), Err(OidcError::MetadataInvalid)));
}

#[test]
fn oidc_errors() {
    let from = |kind| OidcError::from_oauth_error(OAuthError { kind, message: "m".to_owned() });
    assert!(matches!(
        from(OAuthErrorKind::Discovery { not_supported: true }),
        OidcError::NotSupported
    ));
    assert!(matches!(
        from(OAuthErrorKind::Discovery { not_supported: false }),
        OidcError::Generic { .. }
    ));
    assert!(matches!(from(OAuthErrorKind::RedirectUri), OidcError::CallbackUrlInvalid));
    assert!(matches!(from(OAuthErrorKind::InvalidState), OidcError::CallbackUrlInvalid));
    assert!(matches!(from(OAuthErrorKind::Cancelled), OidcError::Cancelled));
    assert_eq!(from(OAuthErrorKind::Other).to_string(), "An error occurred: m");
    assert!(matches!(
        OidcError::from_registrations_error(OidcRegistrationsError::InvalidFilePath),
        OidcError::RegistrationsPathInvalid
    ));
    assert!(matches!(
        OidcError::from_registrations_error(OidcRegistrationsError::Other { message: "m".to_owned() }),
        OidcError::Generic { .. }
    ));
    let error = OAuthError { kind: OAuthErrorKind::Cancelled, message: "m".to_owned() };
    assert!(matches!(
        OidcError::from_login_error(LoginError::OAuth { error }),
        OidcError::Cancelled
    ));
    assert!(matches!(
        OidcError::from_login_error(LoginError::Other { message: "m".to_owned() }),
        OidcError::Generic { .. }
    ));
    for (error, text) in [
        (
            OidcError::NotSupported,
            "The homeserver doesn't provide an authentication issuer in its well-known configuration.",
        ),
        (
            OidcError::MetadataInvalid,
            "Unable to use OIDC as the supplied client metadata is invalid.",
        ),
        (
            OidcError::RegistrationsPathInvalid,
            "Failed to use the supplied registrations file path.",
        ),
        (
            OidcError::CallbackUrlInvalid,
            "The supplied callback URL used to complete OIDC is invalid.",
        ),
        (OidcError::Cancelled, "The OIDC login was cancelled by the user."),
    ] {
        assert_eq!(error.to_string(), text);
    }
}

#[test]
fn the_service_reports_what_failed() {
    assert!(matches!(
        AuthenticationError::from_build_failure(BuildFailure::InvalidServerName),
        AuthenticationError::InvalidServerName
    ));
    assert!(matches!(
        AuthenticationError::from_build_failure(BuildFailure::Http { message: "m".to_owned() }),
        AuthenticationError::ServerUnreachable { ref message } if message == "m"
    ));
    assert!(matches!(
        AuthenticationError::from_build_failure(BuildFailure::SlidingSyncNotAvailable),
        AuthenticationError::SlidingSyncNotAvailable
    ));
    assert!(matches!(
        AuthenticationError::from_registrations_error(OidcRegistrationsError::InvalidFilePath),
        AuthenticationError::OidcRegistrationsPathInvalid
    ));
    let details = ServiceLoginDetails {
        url: "u".to_owned(),
        sliding_sync_proxy: Some("p".to_owned()),
        supports_oidc_login: true,
        supports_password_login: false,
    };
    assert_eq!(details.url(), "u");
    assert_eq!(details.sliding_sync_proxy().as_deref(), Some("p"));
    assert!(details.supports_oidc_login() && !details.supports_password_login());
}

#[test]
fn the_service_tells_of_the_client() {
    let configuration = |redirect_uri: &str, logo_uri: Option<&str>| ServiceConfiguration {
        client_name: None,
        redirect_uri: redirect_uri.to_owned(),
        client_uri: None,
        logo_uri: logo_uri.map(str::to_owned),
        tos_uri: None,
        policy_uri: None,
        contacts: Some(vec!["a@b.c".to_owned()]),
        static_registrations: vec![],
        dynamic_registrations_file: "f".to_owned(),
    };
    let metadata = configuration("https://Example.org", None).into_metadata().ok().unwrap();
    assert_eq!(metadata.redirect_uri, "https://example.org/");
    assert_eq!(metadata.contacts, Some(vec!["a@b.c".to_owned()]));
    assert!(matches!(
        configuration("odd", None).into_metadata(),
        Err(AuthenticationError::OidcCallbackUrlInvalid)
    ));
    assert!(matches!(
        configuration("https://example.org", Some("odd")).into_metadata(),
        Err(AuthenticationError::OidcMetadataInvalid)
    ));
}
