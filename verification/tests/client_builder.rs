use matrix_sdk_ffi::client_builder::{
    certificate_forms, BackupDownloadStrategy, CertificateForm, CertificateReading,
    ClientBuildError, ClientBuilder, CollectStrategy, DecryptionSettings, HomeserverConfig,
    RequestConfig, SdkClientBuildError, SlidingSyncVersionBuilder, ThreadingSupport,
    TrustRequirement, NO_SERVER,
};
use matrix_sdk_ffi::error::ClientError;
use ruma::{ServerName, UserId};

fn message(error: ClientBuildError) -> String {
    match error {
        ClientBuildError::Generic { message } => message,
        _ => panic!(),
    }
}

#[test]
fn a_builder_needs_a_server() {
    assert_eq!(message(ClientBuilder::new().build().err().unwrap()), NO_SERVER);
    assert_eq!(
        NO_SERVER,
        "Failed to build: One of homeserver_url, server_name, server_name_or_homeserver_url or username must be called."
    );
}

#[test]
fn defaults() {
    let plan = ClientBuilder::new().homeserver_url("https://example.org".to_owned()).build().ok().unwrap();
    assert!(matches!(plan.server, HomeserverConfig::Url(ref url) if url == "https://example.org"));
    assert!(plan.store.is_none());
    assert!(plan.handle_refresh_tokens);
    assert!(plan.request_config.is_none());
    assert!(plan.root_certificates.is_empty());
    assert!(!plan.disable_ssl_verification);
    assert!(!plan.enable_oidc_refresh_lock);
    assert!(!plan.has_session_delegate);
    assert_eq!(plan.threading_support, ThreadingSupport::Disabled);
    assert_eq!(
        plan.encryption_settings.backup_download_strategy,
        BackupDownloadStrategy::AfterDecryptionFailure
    );
    assert!(matches!(plan.sliding_sync_version_builder, SlidingSyncVersionBuilder::NoVersion));
}

#[test]
fn the_server_comes_from_the_user() {
    let builder = ClientBuilder::new().username("@alice:example.org:8448".to_owned());
    let plan = builder.build().ok().unwrap();
    let user = UserId::parse("@alice:example.org:8448").unwrap();
    assert!(matches!(
        plan.server,
        HomeserverConfig::ServerName(ref name) if name == user.server_name().as_str()
    ));

    let error = ClientBuilder::new().username("alice".to_owned()).build().err().unwrap();
    assert_eq!(message(error), UserId::parse("alice").err().unwrap().to_string());
}

#[test]
fn a_named_server_counts_more() {
    let builder = || {
        ClientBuilder::new()
            .username("@alice:example.org".to_owned())
            .homeserver_url("https://first.org".to_owned())
    };
    let plan = builder().server_name("second.org".to_owned()).build().ok().unwrap();
    assert!(matches!(plan.server, HomeserverConfig::ServerName(ref name) if name == "second.org"));
    let plan = builder().server_name_or_homeserver_url("third".to_owned()).build().ok().unwrap();
    assert!(matches!(plan.server, HomeserverConfig::ServerNameOrUrl(ref name) if name == "third"));

    let error = builder().server_name("not a server".to_owned()).build().err().unwrap();
    assert_eq!(message(error), ServerName::parse("not a server").err().unwrap().to_string());
}

#[test]
fn options_are_taken() {
    let plan = ClientBuilder::new()
        .homeserver_url("u".to_owned())
        .cross_process_store_locks_holder_name("holder".to_owned())
        .enable_oidc_refresh_lock()
        .set_session_delegate()
        .session_paths("data".to_owned(), "cache".to_owned())
        .session_passphrase(Some("pass".to_owned()))
        .session_pool_max_size(Some(3))
        .session_cache_size(Some(4))
        .session_journal_size_limit(Some(5))
        .system_is_memory_constrained()
        .sliding_sync_version_builder(SlidingSyncVersionBuilder::DiscoverNative)
        .disable_automatic_token_refresh()
        .auto_enable_cross_signing(true)
        .auto_enable_backups(true)
        .backup_download_strategy(BackupDownloadStrategy::OneShot)
        .room_key_recipient_strategy(CollectStrategy::IdentityBasedStrategy)
        .decryption_settings(DecryptionSettings {
            sender_device_trust_requirement: TrustRequirement::CrossSigned,
        })
        .enable_share_history_on_invite(true)
        .proxy("proxy".to_owned())
        .disable_ssl_verification()
        .add_root_certificates(vec![vec![1, 2]])
        .disable_built_in_root_certificates()
        .user_agent("agent".to_owned())
        .threads_enabled(true, true)
        .build()
        .ok()
        .unwrap();
    let store = plan.store.unwrap();
    assert_eq!(plan.cross_process_store_locks_holder_name.as_deref(), Some("holder"));
    assert_eq!((store.data_path.as_str(), store.cache_path.as_str()), ("data", "cache"));
    assert_eq!(store.passphrase.as_deref(), Some("pass"));
    assert!(store.low_memory);
    assert_eq!(store.pool_max_size, Some(3));
    assert_eq!(store.cache_size, Some(4));
    assert_eq!(store.journal_size_limit, Some(5));
    assert!(plan.enable_oidc_refresh_lock && plan.has_session_delegate);
    assert!(!plan.handle_refresh_tokens);
    assert!(plan.encryption_settings.auto_enable_cross_signing);
    assert!(plan.encryption_settings.auto_enable_backups);
    assert_eq!(plan.room_key_recipient_strategy, Some(CollectStrategy::IdentityBasedStrategy));
    assert_eq!(
        plan.decryption_settings.sender_device_trust_requirement,
        TrustRequirement::CrossSigned
    );
    assert!(plan.enable_share_history_on_invite);
    assert_eq!(plan.proxy.as_deref(), Some("proxy"));
    assert!(plan.disable_ssl_verification && plan.disable_built_in_root_certificates);
    assert_eq!(plan.root_certificates, vec![vec![1, 2]]);
    assert_eq!(plan.user_agent.as_deref(), Some("agent"));
    assert_eq!(plan.threading_support, ThreadingSupport::Enabled { with_subscriptions: true });
}

#[test]
fn requests_are_configured() {
    let config = RequestConfig {
        retry_limit: Some(3),
        timeout: Some(1500),
        max_concurrent_requests: Some(0),
        max_retry_time: None,
    };
    let plan = config.plan();
    assert_eq!(plan.retry_limit, Some(3));
    assert_eq!(plan.timeout, Some(1500));
    assert_eq!(plan.read_timeout, 60);
    assert_eq!(plan.max_concurrent_requests, None);
    assert_eq!(plan.max_retry_time, None);

    let config = RequestConfig {
        retry_limit: Some(u64::MAX),
        timeout: None,
        max_concurrent_requests: Some(7),
        max_retry_time: Some(9),
    };
    let plan = config.plan();
    assert_eq!(plan.retry_limit, Some(usize::MAX));
    assert_eq!(plan.max_concurrent_requests, Some(7));
    assert_eq!(plan.max_retry_time, Some(9));

    let builder = ClientBuilder::new().homeserver_url("u".to_owned()).request_config(RequestConfig {
        retry_limit: None,
        timeout: None,
        max_concurrent_requests: None,
        max_retry_time: None,
    });
    assert_eq!(builder.build().ok().unwrap().request_config.unwrap().read_timeout, 60);
}

#[test]
fn certificates_are_der_or_pem() {
    let reading = |der: Option<&str>, pem: Option<&str>| CertificateReading {
        der_error: der.map(str::to_owned),
        pem_error: pem.map(str::to_owned),
    };
    let forms = certificate_forms(&vec![reading(None, Some("p")), reading(Some("d"), None)]);
    assert_eq!(forms.ok().unwrap(), [CertificateForm::Der, CertificateForm::Pem]);
    let refused = certificate_forms(&vec![
        reading(None, None),
        reading(Some("d1"), Some("p1")),
        reading(Some("d2"), Some("p2")),
    ]);
    assert_eq!(
        message(refused.err().unwrap()),
        "Failed to add a root certificate as DER (d1) or PEM (p1)"
    );
}

#[test]
fn build_errors() {
    let text = || "m".to_owned();
    let from = |error: SdkClientBuildError| ClientBuildError::from(error);
    assert!(matches!(
        from(SdkClientBuildError::InvalidServerName),
        ClientBuildError::InvalidServerName
    ));
    assert!(matches!(
        from(SdkClientBuildError::Http { message: text() }),
        ClientBuildError::ServerUnreachable { .. }
    ));
    assert!(matches!(
        from(SdkClientBuildError::AutoDiscoveryServer { message: text() }),
        ClientBuildError::WellKnownLookupFailed { .. }
    ));
    assert!(matches!(
        from(SdkClientBuildError::AutoDiscoveryDeserialization { message: text() }),
        ClientBuildError::WellKnownDeserializationError { .. }
    ));
    assert!(matches!(
        from(SdkClientBuildError::SlidingSyncVersion { message: text() }),
        ClientBuildError::SlidingSyncVersion { .. }
    ));
    assert_eq!(from(SdkClientBuildError::Other { message: text() }).to_string(), "m");
    assert_eq!(
        ClientBuildError::InvalidServerName.to_string(),
        "The supplied server name is invalid."
    );
    let error = ClientError::Generic { msg: text(), details: None };
    assert_eq!(
        ClientBuildError::from_client_error(&error).to_string(),
        "Failed to build the client: client error: m"
    );
}
