use matrix_sdk_ffi::error::ClientError;
use matrix_sdk_ffi::platform::{
    build_tracing_filter, default_target_log_levels, immutable_log_targets, lightweight_runtime, reports_event, reports_span, samples_trace,
    target_level, EventFormatter, EventRecord, LogLevel, LogTarget, LoggingCtx, Platform,
    RuntimeSize, SpanRecord, TraceLogPacks, TracingConfiguration, TracingFileConfiguration,
};
use tracing_subscriber::EnvFilter;

#[test]
fn test_default_tracing_filter() {
    let config = TracingConfiguration {
        log_level: LogLevel::Error,
        trace_log_packs: Vec::new(),
        extra_targets: vec!["super_duper_app".to_owned()],
        write_to_stdout_or_system: true,
        write_to_files: None,
        sentry_dsn: None,
    };

    let filter = build_tracing_filter(&config);

    assert_eq!(
        filter,
        r#"panic=error,
        hyper=warn,
        matrix_sdk_ffi=info,
        matrix_sdk=info,
        matrix_sdk::client=trace,
        matrix_sdk_crypto=debug,
        matrix_sdk_crypto::olm::account=trace,
        matrix_sdk::oidc=trace,
        matrix_sdk::http_client=debug,
        matrix_sdk::sliding_sync=info,
        matrix_sdk_base::sliding_sync=info,
        matrix_sdk_ui::timeline=info,
        matrix_sdk::send_queue=info,
        matrix_sdk::event_cache=info,
        matrix_sdk::latest_events=info,
        matrix_sdk_base::event_cache=info,
        matrix_sdk_sqlite::event_cache_store=info,
        matrix_sdk_common::cross_process_lock=warn,
        matrix_sdk_common::deserialized_responses=warn,
        matrix_sdk_base::store::ambiguity_map=warn,
        matrix_sdk_ui::notification_client=info,
        matrix_sdk_base::response_processors=debug,
        super_duper_app=error"#
            .split('\n')
            .map(|s| s.trim())
            .collect::<Vec<_>>()
            .join("")
    );
}

#[test]
fn test_trace_tracing_filter() {
    let config = TracingConfiguration {
        log_level: LogLevel::Trace,
        trace_log_packs: Vec::new(),
        extra_targets: vec!["super_duper_app".to_owned(), "some_other_span".to_owned()],
        write_to_stdout_or_system: true,
        write_to_files: None,
        sentry_dsn: None,
    };

    let filter = build_tracing_filter(&config);

    assert_eq!(
        filter,
        r#"panic=error,
        hyper=warn,
        matrix_sdk_ffi=info,
        matrix_sdk=info,
        matrix_sdk::client=trace,
        matrix_sdk_crypto=trace,
        matrix_sdk_crypto::olm::account=trace,
        matrix_sdk::oidc=trace,
        matrix_sdk::http_client=trace,
        matrix_sdk::sliding_sync=trace,
        matrix_sdk_base::sliding_sync=trace,
        matrix_sdk_ui::timeline=trace,
        matrix_sdk::send_queue=trace,
        matrix_sdk::event_cache=trace,
        matrix_sdk::latest_events=trace,
        matrix_sdk_base::event_cache=trace,
        matrix_sdk_sqlite::event_cache_store=trace,
        matrix_sdk_common::cross_process_lock=warn,
        matrix_sdk_common::deserialized_responses=trace,
        matrix_sdk_base::store::ambiguity_map=warn,
        matrix_sdk_ui::notification_client=trace,
        matrix_sdk_base::response_processors=trace,
        super_duper_app=trace,
        some_other_span=trace"#
            .split('\n')
            .map(|s| s.trim())
            .collect::<Vec<_>>()
            .join("")
    );
}

#[test]
fn test_trace_log_packs() {
    let config = TracingConfiguration {
        log_level: LogLevel::Info,
        trace_log_packs: vec![TraceLogPacks::EventCache, TraceLogPacks::SendQueue],
        extra_targets: vec!["super_duper_app".to_owned()],
        write_to_stdout_or_system: true,
        write_to_files: None,
        sentry_dsn: None,
    };

    let filter = build_tracing_filter(&config);

    assert_eq!(
        filter,
        r#"panic=error,
        hyper=warn,
        matrix_sdk_ffi=info,
        matrix_sdk=info,
        matrix_sdk::client=trace,
        matrix_sdk_crypto=debug,
        matrix_sdk_crypto::olm::account=trace,
        matrix_sdk::oidc=trace,
        matrix_sdk::http_client=debug,
        matrix_sdk::sliding_sync=info,
        matrix_sdk_base::sliding_sync=info,
        matrix_sdk_ui::timeline=info,
        matrix_sdk::send_queue=trace,
        matrix_sdk::event_cache=trace,
        matrix_sdk::latest_events=info,
        matrix_sdk_base::event_cache=trace,
        matrix_sdk_sqlite::event_cache_store=trace,
        matrix_sdk_common::cross_process_lock=warn,
        matrix_sdk_common::deserialized_responses=trace,
        matrix_sdk_base::store::ambiguity_map=warn,
        matrix_sdk_ui::notification_client=info,
        matrix_sdk_base::response_processors=debug,
        super_duper_app=info"#
            .split('\n')
            .map(|s| s.trim())
            .collect::<Vec<_>>()
            .join("")
    );
}

fn configuration(log_level: LogLevel, trace_log_packs: Vec<TraceLogPacks>) -> TracingConfiguration {
    TracingConfiguration {
        log_level,
        trace_log_packs,
        extra_targets: vec![],
        write_to_stdout_or_system: false,
        write_to_files: None,
        sentry_dsn: None,
    }
}

fn levels() -> [LogLevel; 5] {
    [LogLevel::Error, LogLevel::Warn, LogLevel::Info, LogLevel::Debug, LogLevel::Trace]
}

#[test]
fn filters_can_be_read() {
    for level in levels() {
        let filter = build_tracing_filter(&configuration(level, vec![TraceLogPacks::Timeline]));
        assert!(EnvFilter::try_new(&filter).is_ok(), "{filter}");
    }
}

#[test]
fn levels_do_not_drop_below_the_defaults() {
    for level in levels() {
        for (target, default) in default_target_log_levels() {
            let chosen = target_level(&configuration(level, vec![]), target, default);
            assert!(!default.is_more_verbose_than(chosen));
        }
    }
}

#[test]
fn packs_trace_their_targets() {
    let config = configuration(LogLevel::Error, vec![TraceLogPacks::NotificationClient]);
    let targets = TraceLogPacks::NotificationClient.targets();
    assert!(targets.contains(&LogTarget::MatrixSdkUiNotificationClient));
    for target in targets {
        assert_eq!(target_level(&config, target, LogLevel::Info), LogLevel::Trace);
    }
    // A target that is in no pack, and one that never changes.
    assert_eq!(
        target_level(&config, LogTarget::MatrixSdkOidc, LogLevel::Info),
        LogLevel::Info
    );
    let verbose = configuration(LogLevel::Trace, vec![]);
    for target in immutable_log_targets() {
        assert_eq!(target_level(&verbose, target, LogLevel::Warn), LogLevel::Warn);
    }
}

#[test]
fn levels_are_named() {
    assert_eq!(levels().map(|level| level.as_str()), ["error", "warn", "info", "debug", "trace"]);
    assert_eq!(
        levels().map(|level| level.as_column()),
        ["ERROR", " WARN", " INFO", "DEBUG", "TRACE"]
    );
    for (i, a) in levels().into_iter().enumerate() {
        for (j, b) in levels().into_iter().enumerate() {
            assert_eq!(a.is_more_verbose_than(b), i > j);
        }
    }
    assert_eq!(LogTarget::MatrixSdkCryptoAccount.as_str(), "matrix_sdk_crypto::olm::account");
}

fn error_text(error: ClientError) -> String {
    match error {
        ClientError::Generic { msg, details: None } => msg,
        _ => panic!(),
    }
}

#[test]
fn the_platform_is_set_up_once() {
    let mut platform = Platform::new();
    assert!(!platform.enable_sentry_logging(true));
    assert_eq!(
        error_text(platform.reload_tracing_file_writer().err().unwrap()),
        "Logging hasn't been initialized yet"
    );

    let (setup, size) =
        platform.init_platform(configuration(LogLevel::Info, vec![]), true, 8).ok().unwrap();
    assert_eq!(setup.env_filter, build_tracing_filter(&configuration(LogLevel::Info, vec![])));
    assert!(!setup.stdout_or_system);
    assert_eq!(
        size,
        RuntimeSize::Lightweight {
            worker_threads: 4,
            thread_stack_size: 1024 * 1024,
            max_blocking_threads: 2
        }
    );
    assert_eq!(
        platform.logging,
        Some(LoggingCtx { has_file_layer: false, sentry_enabled: None })
    );
    assert!(!platform.enable_sentry_logging(true));
    assert_eq!(
        error_text(platform.reload_tracing_file_writer().err().unwrap()),
        "Logging wasn't initialized with a file config"
    );

    let again = platform.init_platform(configuration(LogLevel::Info, vec![]), false, 8);
    assert_eq!(error_text(again.err().unwrap()), "logger already initialized");
}

#[test]
fn files_and_reports_can_be_switched() {
    let mut config = configuration(LogLevel::Info, vec![]);
    config.write_to_files = Some(TracingFileConfiguration {
        path: "logs".to_owned(),
        file_prefix: "app".to_owned(),
        file_suffix: Some(".log".to_owned()),
        max_files: Some(3),
    });
    config.sentry_dsn = Some("https://dsn".to_owned());

    let mut platform = Platform::new();
    let (setup, size) = platform.init_platform(config, false, 8).ok().unwrap();
    assert_eq!(size, RuntimeSize::Multithreaded);
    assert_eq!(setup.sentry_dsn, Some("https://dsn".to_owned()));
    assert_eq!(setup.files.unwrap().file_prefix, "app");
    assert!(platform.reload_tracing_file_writer().is_ok());
    assert_eq!(platform.logging.unwrap().sentry_enabled, Some(true));
    assert!(platform.enable_sentry_logging(false));
    assert_eq!(platform.logging.unwrap().sentry_enabled, Some(false));
    assert!(platform.logging.unwrap().has_file_layer);
    assert_eq!(
        error_text(Platform::reload_failed("gone")),
        "Failed to reload file config: gone"
    );
}

#[test]
fn small_machines_get_fewer_threads() {
    for (cores, threads) in [(1, 1), (2, 2), (4, 4), (5, 4), (128, 4)] {
        assert!(matches!(
            lightweight_runtime(cores),
            RuntimeSize::Lightweight { worker_threads, .. } if worker_threads == threads
        ));
    }
}

#[test]
fn reports_are_chosen() {
    assert!(samples_trace("bridge", "bridge"));
    assert!(!samples_trace("other", "bridge"));
    assert!(reports_event(true, true));
    assert!(!reports_event(false, true));
    assert!(!reports_event(true, false));
    assert!(reports_span(true, LogLevel::Debug));
    assert!(!reports_span(true, LogLevel::Trace));
    assert!(!reports_span(false, LogLevel::Error));
}

fn record() -> EventRecord {
    EventRecord {
        timestamp: Some("2024-01-15T10:00:00Z".to_owned()),
        level: LogLevel::Info,
        target: "app".to_owned(),
        fields: "hello x=1".to_owned(),
        file: Some("src/main.rs".to_owned()),
        line: Some(42),
        spans: None,
    }
}

#[test]
fn events_are_lines() {
    let formatter = EventFormatter::new();
    assert_eq!(
        formatter.format_event(&record()),
        "2024-01-15T10:00:00Z  INFO app: hello x=1 | src/main.rs:42\n"
    );

    let mut event = record();
    event.timestamp = None;
    event.line = None;
    event.spans = Some(vec![
        SpanRecord { name: "outer".to_owned(), fields: Some("a=1".to_owned()) },
        SpanRecord { name: "inner".to_owned(), fields: Some("".to_owned()) },
        SpanRecord { name: "innermost".to_owned(), fields: None },
    ]);
    assert_eq!(
        formatter.format_event(&event),
        "<unknown time>  INFO app: hello x=1 | src/main.rs | spans: outer{a=1} > inner > innermost\n"
    );

    event.file = None;
    event.line = Some(7);
    assert_eq!(
        EventFormatter::for_logcat().format_event(&event),
        "app: hello x=1 | spans: outer{a=1} > inner > innermost\n"
    );
}

#[test]
fn paths_of_dependencies_are_shortened() {
    let formatter = EventFormatter::new();
    for (path, shown) in [
        ("src/lib.rs", "src/lib.rs"),
        (
            "/home/u/.cargo/registry/src/index.crates.io-6f17d22bba15001f/tokio-1.0/src/lib.rs",
            "<crates.io>/tokio-1.0/src/lib.rs",
        ),
        ("/home/u/.cargo/registry/src/index.crates.io", "/home/u/.cargo/registry/src/index.crates.io"),
    ] {
        assert_eq!(formatter.write_filename(path), shown);
    }
}
