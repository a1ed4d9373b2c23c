//! Logging: which targets log at which level, how an event is written, and
//! what setting up the platform asks for.

use vstd::prelude::*;
use vstd::string::*;

use crate::error::ClientError;
use crate::text::{concat2, concat3, decimal, decimal_string, join, joined, same, split_once, split_once_spec, views};

verus! {

/// How much is logged, from the least to the most.
#[derive(Clone, Copy, Debug, PartialEq, Eq, Structural)]
pub enum LogLevel {
    Error,
    Warn,
    Info,
    Debug,
    Trace,
}

/// The rank of a level: a higher one logs more.
pub open spec fn verbosity(level: LogLevel) -> int {
    match level {
        LogLevel::Error => 0,
        LogLevel::Warn => 1,
        LogLevel::Info => 2,
        LogLevel::Debug => 3,
        LogLevel::Trace => 4,
    }
}

/// The name of a level in a filter.
pub open spec fn level_name(level: LogLevel) -> Seq<char> {
    match level {
        LogLevel::Error => "error"@,
        LogLevel::Warn => "warn"@,
        LogLevel::Info => "info"@,
        LogLevel::Debug => "debug"@,
        LogLevel::Trace => "trace"@,
    }
}

/// The name of a level in a log line, padded to five characters.
pub open spec fn level_column(level: LogLevel) -> Seq<char> {
    match level {
        LogLevel::Error => "ERROR"@,
        LogLevel::Warn => " WARN"@,
        LogLevel::Info => " INFO"@,
        LogLevel::Debug => "DEBUG"@,
        LogLevel::Trace => "TRACE"@,
    }
}

impl LogLevel {
    /// The name of the level in a filter.
    pub fn as_str(&self) -> (r: &'static str)
        ensures
            r@ == level_name(*self),
    {
        match self {
            LogLevel::Error => "error",
            LogLevel::Warn => "warn",
            LogLevel::Info => "info",
            LogLevel::Debug => "debug",
            LogLevel::Trace => "trace",
        }
    }

    /// The name of the level in a log line.
    pub fn as_column(&self) -> (r: &'static str)
        ensures
            r@ == level_column(*self),
    {
        match self {
            LogLevel::Error => "ERROR",
            LogLevel::Warn => " WARN",
            LogLevel::Info => " INFO",
            LogLevel::Debug => "DEBUG",
            LogLevel::Trace => "TRACE",
        }
    }

    /// The rank of the level.
    fn rank(&self) -> (r: u8)
        ensures
            r == verbosity(*self),
    {
        match self {
            LogLevel::Error => 0,
            LogLevel::Warn => 1,
            LogLevel::Info => 2,
            LogLevel::Debug => 3,
            LogLevel::Trace => 4,
        }
    }

    /// Whether this level logs more than `other`.
    pub fn is_more_verbose_than(&self, other: LogLevel) -> (r: bool)
        ensures
            r == (verbosity(*self) > verbosity(other)),
    {
        self.rank() > other.rank()
    }
}

/// A target that the bindings know.
#[derive(Clone, Copy, Debug, PartialEq, Eq, Structural)]
pub enum LogTarget {
    Hyper,
    MatrixSdkFfi,
    MatrixSdkBaseEventCache,
    MatrixSdkBaseSlidingSync,
    MatrixSdkBaseStoreAmbiguityMap,
    MatrixSdkBaseResponseProcessors,
    MatrixSdkCommonCrossProcessLock,
    MatrixSdkCommonDeserializedResponses,
    MatrixSdk,
    MatrixSdkClient,
    MatrixSdkCrypto,
    MatrixSdkCryptoAccount,
    MatrixSdkEventCache,
    MatrixSdkEventCacheStore,
    MatrixSdkHttpClient,
    MatrixSdkLatestEvents,
    MatrixSdkOidc,
    MatrixSdkSendQueue,
    MatrixSdkSlidingSync,
    MatrixSdkUiTimeline,
    MatrixSdkUiNotificationClient,
}

/// The name of a target in a filter.
pub open spec fn target_name(target: LogTarget) -> Seq<char> {
    match target {
        LogTarget::Hyper => "hyper"@,
        LogTarget::MatrixSdkFfi => "matrix_sdk_ffi"@,
        LogTarget::MatrixSdkBaseEventCache => "matrix_sdk_base::event_cache"@,
        LogTarget::MatrixSdkBaseSlidingSync => "matrix_sdk_base::sliding_sync"@,
        LogTarget::MatrixSdkBaseStoreAmbiguityMap => "matrix_sdk_base::store::ambiguity_map"@,
        LogTarget::MatrixSdkBaseResponseProcessors => "matrix_sdk_base::response_processors"@,
        LogTarget::MatrixSdkCommonCrossProcessLock => "matrix_sdk_common::cross_process_lock"@,
        LogTarget::MatrixSdkCommonDeserializedResponses => "matrix_sdk_common::deserialized_responses"@,
        LogTarget::MatrixSdk => "matrix_sdk"@,
        LogTarget::MatrixSdkClient => "matrix_sdk::client"@,
        LogTarget::MatrixSdkCrypto => "matrix_sdk_crypto"@,
        LogTarget::MatrixSdkCryptoAccount => "matrix_sdk_crypto::olm::account"@,
        LogTarget::MatrixSdkEventCache => "matrix_sdk::event_cache"@,
        LogTarget::MatrixSdkEventCacheStore => "matrix_sdk_sqlite::event_cache_store"@,
        LogTarget::MatrixSdkHttpClient => "matrix_sdk::http_client"@,
        LogTarget::MatrixSdkLatestEvents => "matrix_sdk::latest_events"@,
        LogTarget::MatrixSdkOidc => "matrix_sdk::oidc"@,
        LogTarget::MatrixSdkSendQueue => "matrix_sdk::send_queue"@,
        LogTarget::MatrixSdkSlidingSync => "matrix_sdk::sliding_sync"@,
        LogTarget::MatrixSdkUiTimeline => "matrix_sdk_ui::timeline"@,
        LogTarget::MatrixSdkUiNotificationClient => "matrix_sdk_ui::notification_client"@,
    }
}

impl LogTarget {
    /// The name of the target in a filter.
    pub fn as_str(&self) -> (r: &'static str)
        ensures
            r@ == target_name(*self),
    {
        match self {
            LogTarget::Hyper => "hyper",
            LogTarget::MatrixSdkFfi => "matrix_sdk_ffi",
            LogTarget::MatrixSdkBaseEventCache => "matrix_sdk_base::event_cache",
            LogTarget::MatrixSdkBaseSlidingSync => "matrix_sdk_base::sliding_sync",
            LogTarget::MatrixSdkBaseStoreAmbiguityMap => "matrix_sdk_base::store::ambiguity_map",
            LogTarget::MatrixSdkBaseResponseProcessors => "matrix_sdk_base::response_processors",
            LogTarget::MatrixSdkCommonCrossProcessLock => "matrix_sdk_common::cross_process_lock",
            LogTarget::MatrixSdkCommonDeserializedResponses => "matrix_sdk_common::deserialized_responses",
            LogTarget::MatrixSdk => "matrix_sdk",
            LogTarget::MatrixSdkClient => "matrix_sdk::client",
            LogTarget::MatrixSdkCrypto => "matrix_sdk_crypto",
            LogTarget::MatrixSdkCryptoAccount => "matrix_sdk_crypto::olm::account",
            LogTarget::MatrixSdkEventCache => "matrix_sdk::event_cache",
            LogTarget::MatrixSdkEventCacheStore => "matrix_sdk_sqlite::event_cache_store",
            LogTarget::MatrixSdkHttpClient => "matrix_sdk::http_client",
            LogTarget::MatrixSdkLatestEvents => "matrix_sdk::latest_events",
            LogTarget::MatrixSdkOidc => "matrix_sdk::oidc",
            LogTarget::MatrixSdkSendQueue => "matrix_sdk::send_queue",
            LogTarget::MatrixSdkSlidingSync => "matrix_sdk::sliding_sync",
            LogTarget::MatrixSdkUiTimeline => "matrix_sdk_ui::timeline",
            LogTarget::MatrixSdkUiNotificationClient => "matrix_sdk_ui::notification_client",
        }
    }
}

/// The targets with the level that each logs at unless something else is asked
/// for, in the order in which a filter names them.
pub open spec fn default_levels() -> Seq<(LogTarget, LogLevel)> {
    seq![
        (LogTarget::Hyper, LogLevel::Warn),
        (LogTarget::MatrixSdkFfi, LogLevel::Info),
        (LogTarget::MatrixSdk, LogLevel::Info),
        (LogTarget::MatrixSdkClient, LogLevel::Trace),
        (LogTarget::MatrixSdkCrypto, LogLevel::Debug),
        (LogTarget::MatrixSdkCryptoAccount, LogLevel::Trace),
        (LogTarget::MatrixSdkOidc, LogLevel::Trace),
        (LogTarget::MatrixSdkHttpClient, LogLevel::Debug),
        (LogTarget::MatrixSdkSlidingSync, LogLevel::Info),
        (LogTarget::MatrixSdkBaseSlidingSync, LogLevel::Info),
        (LogTarget::MatrixSdkUiTimeline, LogLevel::Info),
        (LogTarget::MatrixSdkSendQueue, LogLevel::Info),
        (LogTarget::MatrixSdkEventCache, LogLevel::Info),
        (LogTarget::MatrixSdkLatestEvents, LogLevel::Info),
        (LogTarget::MatrixSdkBaseEventCache, LogLevel::Info),
        (LogTarget::MatrixSdkEventCacheStore, LogLevel::Info),
        (LogTarget::MatrixSdkCommonCrossProcessLock, LogLevel::Warn),
        (LogTarget::MatrixSdkCommonDeserializedResponses, LogLevel::Warn),
        (LogTarget::MatrixSdkBaseStoreAmbiguityMap, LogLevel::Warn),
        (LogTarget::MatrixSdkUiNotificationClient, LogLevel::Info),
        (LogTarget::MatrixSdkBaseResponseProcessors, LogLevel::Debug),
    ]
}

/// The targets whose level never changes: they are too verbose or too generic.
pub open spec fn immutable_targets() -> Seq<LogTarget> {
    seq![
        LogTarget::Hyper,
        LogTarget::MatrixSdk,
        LogTarget::MatrixSdkFfi,
        LogTarget::MatrixSdkCommonCrossProcessLock,
        LogTarget::MatrixSdkBaseStoreAmbiguityMap,
    ]
}

/// The targets with their default levels.
pub fn default_target_log_levels() -> (r: Vec<(LogTarget, LogLevel)>)
    ensures
        r@ == default_levels(),
{
    let r: Vec<(LogTarget, LogLevel)> = vec![
        (LogTarget::Hyper, LogLevel::Warn),
        (LogTarget::MatrixSdkFfi, LogLevel::Info),
        (LogTarget::MatrixSdk, LogLevel::Info),
        (LogTarget::MatrixSdkClient, LogLevel::Trace),
        (LogTarget::MatrixSdkCrypto, LogLevel::Debug),
        (LogTarget::MatrixSdkCryptoAccount, LogLevel::Trace),
        (LogTarget::MatrixSdkOidc, LogLevel::Trace),
        (LogTarget::MatrixSdkHttpClient, LogLevel::Debug),
        (LogTarget::MatrixSdkSlidingSync, LogLevel::Info),
        (LogTarget::MatrixSdkBaseSlidingSync, LogLevel::Info),
        (LogTarget::MatrixSdkUiTimeline, LogLevel::Info),
        (LogTarget::MatrixSdkSendQueue, LogLevel::Info),
        (LogTarget::MatrixSdkEventCache, LogLevel::Info),
        (LogTarget::MatrixSdkLatestEvents, LogLevel::Info),
        (LogTarget::MatrixSdkBaseEventCache, LogLevel::Info),
        (LogTarget::MatrixSdkEventCacheStore, LogLevel::Info),
        (LogTarget::MatrixSdkCommonCrossProcessLock, LogLevel::Warn),
        (LogTarget::MatrixSdkCommonDeserializedResponses, LogLevel::Warn),
        (LogTarget::MatrixSdkBaseStoreAmbiguityMap, LogLevel::Warn),
        (LogTarget::MatrixSdkUiNotificationClient, LogLevel::Info),
        (LogTarget::MatrixSdkBaseResponseProcessors, LogLevel::Debug),
    ];
    assert(r@ =~= default_levels());
    r
}

/// The targets whose level never changes.
pub fn immutable_log_targets() -> (r: Vec<LogTarget>)
    ensures
        r@ == immutable_targets(),
{
    let r: Vec<LogTarget> = vec![
        LogTarget::Hyper,
        LogTarget::MatrixSdk,
        LogTarget::MatrixSdkFfi,
        LogTarget::MatrixSdkCommonCrossProcessLock,
        LogTarget::MatrixSdkBaseStoreAmbiguityMap,
    ];
    assert(r@ =~= immutable_targets());
    r
}

/// Whether the target is among the given ones.
fn is_among(target: LogTarget, targets: &Vec<LogTarget>) -> (r: bool)
    ensures
        r == targets@.contains(target),
{
    let mut i: usize = 0;
    while i < targets.len()
        invariant
            i <= targets.len(),
            forall|j: int| 0 <= j < i ==> targets@[j] != target,
        decreases targets.len() - i,
    {
        if targets[i] == target {
            return true;
        }
        i = i + 1;
    }
    false
}

/// A log pack can be used to set the trace log level for a group of multiple
/// log targets at once, for debugging purposes.
#[derive(Clone, Copy, Debug, PartialEq, Eq, Structural)]
pub enum TraceLogPacks {
    /// Enables all the logs relevant to the event cache.
    EventCache,
    /// Enables all the logs relevant to the send queue.
    SendQueue,
    /// Enables all the logs relevant to the timeline.
    Timeline,
    /// Enables all the logs relevant to the notification client.
    NotificationClient,
    /// Enables all the logs relevant to sync profiling.
    SyncProfiling,
    /// Enables all the logs relevant to the latest events.
    LatestEvents,
}

/// The targets of a log pack.
pub open spec fn pack_targets(pack: TraceLogPacks) -> Seq<LogTarget> {
    match pack {
        TraceLogPacks::EventCache => seq![
            LogTarget::MatrixSdkEventCache,
            LogTarget::MatrixSdkBaseEventCache,
            LogTarget::MatrixSdkEventCacheStore,
            LogTarget::MatrixSdkCommonCrossProcessLock,
            LogTarget::MatrixSdkCommonDeserializedResponses,
        ],
        TraceLogPacks::SendQueue => seq![
            LogTarget::MatrixSdkSendQueue,
        ],
        TraceLogPacks::Timeline => seq![
            LogTarget::MatrixSdkUiTimeline,
            LogTarget::MatrixSdkCommonDeserializedResponses,
        ],
        TraceLogPacks::NotificationClient => seq![
            LogTarget::MatrixSdkUiNotificationClient,
        ],
        TraceLogPacks::SyncProfiling => seq![
            LogTarget::MatrixSdkSlidingSync,
            LogTarget::MatrixSdkBaseSlidingSync,
            LogTarget::MatrixSdkBaseResponseProcessors,
            LogTarget::MatrixSdkCrypto,
            LogTarget::MatrixSdkCommonCrossProcessLock,
            LogTarget::MatrixSdkCommonDeserializedResponses,
        ],
        TraceLogPacks::LatestEvents => seq![
            LogTarget::MatrixSdkLatestEvents,
            LogTarget::MatrixSdkSendQueue,
            LogTarget::MatrixSdkEventCache,
        ],
    }
}

impl TraceLogPacks {
    /// The targets of the log pack.
    pub fn targets(&self) -> (r: Vec<LogTarget>)
        ensures
            r@ == pack_targets(*self),
    {
        let r: Vec<LogTarget> = match self {
            TraceLogPacks::EventCache => vec![
                LogTarget::MatrixSdkEventCache,
                LogTarget::MatrixSdkBaseEventCache,
                LogTarget::MatrixSdkEventCacheStore,
                LogTarget::MatrixSdkCommonCrossProcessLock,
                LogTarget::MatrixSdkCommonDeserializedResponses,
            ],
            TraceLogPacks::SendQueue => vec![
                LogTarget::MatrixSdkSendQueue,
            ],
            TraceLogPacks::Timeline => vec![
                LogTarget::MatrixSdkUiTimeline,
                LogTarget::MatrixSdkCommonDeserializedResponses,
            ],
            TraceLogPacks::NotificationClient => vec![
                LogTarget::MatrixSdkUiNotificationClient,
            ],
            TraceLogPacks::SyncProfiling => vec![
                LogTarget::MatrixSdkSlidingSync,
                LogTarget::MatrixSdkBaseSlidingSync,
                LogTarget::MatrixSdkBaseResponseProcessors,
                LogTarget::MatrixSdkCrypto,
                LogTarget::MatrixSdkCommonCrossProcessLock,
                LogTarget::MatrixSdkCommonDeserializedResponses,
            ],
            TraceLogPacks::LatestEvents => vec![
                LogTarget::MatrixSdkLatestEvents,
                LogTarget::MatrixSdkSendQueue,
                LogTarget::MatrixSdkEventCache,
            ],
        };
        assert(r@ =~= pack_targets(*self));
        r
    }
}

/// Configuration to save logs to (rotated) log-files.
pub struct TracingFileConfiguration {
    /// Base location for all the log files.
    pub path: String,
    /// Prefix for the log files' names.
    pub file_prefix: String,
    /// Optional suffix for the log file's names.
    pub file_suffix: Option<String>,
    /// Maximum number of rotated files.
    ///
    /// If not set, there's no max limit, i.e. the number of log files is
    /// unlimited.
    pub max_files: Option<u64>,
}

/// What is logged, and where to.
pub struct TracingConfiguration {
    /// The desired log level.
    pub log_level: LogLevel,
    /// All the log packs, that will be set to `TRACE` when they're enabled.
    pub trace_log_packs: Vec<TraceLogPacks>,
    /// Additional targets that the FFI client would like to use.
    ///
    /// These targets will use the global log level by default.
    pub extra_targets: Vec<String>,
    /// Whether to log to stdout, or in the logcat on Android.
    pub write_to_stdout_or_system: bool,
    /// If set, configures rotated log files where to write additional logs.
    pub write_to_files: Option<TracingFileConfiguration>,
    /// If set, the Sentry DSN to use for error reporting.
    pub sentry_dsn: Option<String>,
}

/// Whether one of the packs holds the target.
pub open spec fn in_some_pack(packs: Seq<TraceLogPacks>, target: LogTarget) -> bool {
    exists|i: int| 0 <= i < packs.len() && pack_targets(#[trigger] packs[i]).contains(target)
}

/// The level at which a target logs: an immutable one at its default, one of
/// an enabled pack at trace, any other at its default or the global level,
/// whichever logs more.
pub open spec fn level_of(
    packs: Seq<TraceLogPacks>,
    global: LogLevel,
    target: LogTarget,
    default: LogLevel,
) -> LogLevel {
    if immutable_targets().contains(target) {
        default
    } else if in_some_pack(packs, target) {
        LogLevel::Trace
    } else if verbosity(default) > verbosity(global) {
        default
    } else {
        global
    }
}

/// The part of a filter that sets the level of one target.
pub open spec fn directive(target: Seq<char>, level: LogLevel) -> Seq<char> {
    target + "="@ + level_name(level)
}

/// The directives of the known targets.
pub open spec fn known_directives(config: TracingConfiguration) -> Seq<Seq<char>> {
    Seq::new(
        default_levels().len(),
        |i: int|
            directive(
                target_name(default_levels()[i].0),
                level_of(
                    config.trace_log_packs@,
                    config.log_level,
                    default_levels()[i].0,
                    default_levels()[i].1,
                ),
            ),
    )
}

/// The directives of the targets that the client asks for.
pub open spec fn extra_directives(config: TracingConfiguration) -> Seq<Seq<char>> {
    Seq::new(
        config.extra_targets@.len(),
        |i: int| directive(config.extra_targets@[i]@, config.log_level),
    )
}

/// All the directives: panics first, then the known targets, then the extra
/// ones. None sets a level for everything else, which stays silent.
pub open spec fn directives(config: TracingConfiguration) -> Seq<Seq<char>> {
    seq!["panic=error"@] + known_directives(config) + extra_directives(config)
}

/// Whether one of the packs holds the target.
fn pack_includes(packs: &Vec<TraceLogPacks>, target: LogTarget) -> (r: bool)
    ensures
        r == in_some_pack(packs@, target),
{
    let mut i: usize = 0;
    while i < packs.len()
        invariant
            i <= packs.len(),
            forall|j: int| 0 <= j < i ==> !pack_targets(#[trigger] packs@[j]).contains(target),
        decreases packs.len() - i,
    {
        let targets: Vec<LogTarget> = packs[i].targets();
        if is_among(target, &targets) {
            return true;
        }
        i = i + 1;
    }
    false
}

/// The level at which a target logs.
pub fn target_level(config: &TracingConfiguration, target: LogTarget, default: LogLevel) -> (r:
    LogLevel)
    ensures
        r == level_of(config.trace_log_packs@, config.log_level, target, default),
{
    let immutable: Vec<LogTarget> = immutable_log_targets();
    if is_among(target, &immutable) {
        default
    } else if pack_includes(&config.trace_log_packs, target) {
        LogLevel::Trace
    } else if default.is_more_verbose_than(config.log_level) {
        default
    } else {
        config.log_level
    }
}

/// The filter that the configuration asks for.
pub fn build_tracing_filter(config: &TracingConfiguration) -> (r: String)
    ensures
        r@ == joined(directives(*config), ","@),
{
    let mut filters: Vec<String> = Vec::new();
    filters.push("panic=error".to_owned());
    let defaults: Vec<(LogTarget, LogLevel)> = default_target_log_levels();
    let mut i: usize = 0;
    while i < defaults.len()
        invariant
            i <= defaults.len(),
            defaults@ == default_levels(),
            views(filters@) =~= seq!["panic=error"@] + known_directives(*config).take(i as int),
        decreases defaults.len() - i,
    {
        let (target, default) = defaults[i];
        let level: LogLevel = target_level(config, target, default);
        let ghost before = filters@;
        filters.push(concat3(target.as_str(), "=", level.as_str()));
        assert(views(filters@) =~= views(before).push(
            directive(target_name(target), level),
        ));
        i = i + 1;
    }
    assert(known_directives(*config).take(i as int) =~= known_directives(*config));
    let mut j: usize = 0;
    while j < config.extra_targets.len()
        invariant
            j <= config.extra_targets.len(),
            views(filters@) =~= seq!["panic=error"@] + known_directives(*config)
                + extra_directives(*config).take(j as int),
        decreases config.extra_targets.len() - j,
    {
        let ghost before = filters@;
        filters.push(concat3(config.extra_targets[j].as_str(), "=", config.log_level.as_str()));
        assert(views(filters@) =~= views(before).push(
            directive(config.extra_targets@[j as int]@, config.log_level),
        ));
        j = j + 1;
    }
    assert(extra_directives(*config).take(j as int) =~= extra_directives(*config));
    join(&filters, ",")
}

/// Every target of a log pack is one that the filter names.
pub proof fn pack_targets_have_defaults(pack: TraceLogPacks, target: LogTarget)
    requires
        pack_targets(pack).contains(target),
    ensures
        exists|i: int| 0 <= i < default_levels().len() && (#[trigger] default_levels()[i]).0 == target,
{
    assert(default_levels()[0].0 == LogTarget::Hyper);
    assert(default_levels()[1].0 == LogTarget::MatrixSdkFfi);
    assert(default_levels()[2].0 == LogTarget::MatrixSdk);
    assert(default_levels()[3].0 == LogTarget::MatrixSdkClient);
    assert(default_levels()[4].0 == LogTarget::MatrixSdkCrypto);
    assert(default_levels()[5].0 == LogTarget::MatrixSdkCryptoAccount);
    assert(default_levels()[6].0 == LogTarget::MatrixSdkOidc);
    assert(default_levels()[7].0 == LogTarget::MatrixSdkHttpClient);
    assert(default_levels()[8].0 == LogTarget::MatrixSdkSlidingSync);
    assert(default_levels()[9].0 == LogTarget::MatrixSdkBaseSlidingSync);
    assert(default_levels()[10].0 == LogTarget::MatrixSdkUiTimeline);
    assert(default_levels()[11].0 == LogTarget::MatrixSdkSendQueue);
    assert(default_levels()[12].0 == LogTarget::MatrixSdkEventCache);
    assert(default_levels()[13].0 == LogTarget::MatrixSdkLatestEvents);
    assert(default_levels()[14].0 == LogTarget::MatrixSdkBaseEventCache);
    assert(default_levels()[15].0 == LogTarget::MatrixSdkEventCacheStore);
    assert(default_levels()[16].0 == LogTarget::MatrixSdkCommonCrossProcessLock);
    assert(default_levels()[17].0 == LogTarget::MatrixSdkCommonDeserializedResponses);
    assert(default_levels()[18].0 == LogTarget::MatrixSdkBaseStoreAmbiguityMap);
    assert(default_levels()[19].0 == LogTarget::MatrixSdkUiNotificationClient);
    assert(default_levels()[20].0 == LogTarget::MatrixSdkBaseResponseProcessors);
}

/// The filter sets the level of every known target exactly once.
pub proof fn known_targets_are_distinct(i: int, j: int)
    requires
        0 <= i < default_levels().len(),
        0 <= j < default_levels().len(),
        default_levels()[i].0 == default_levels()[j].0,
    ensures
        i == j,
{
}

/// Whatever the configuration asks for, no known target logs less than by
/// default, and an immutable one keeps its level.
pub proof fn levels_never_drop(config: TracingConfiguration, i: int)
    requires
        0 <= i < default_levels().len(),
    ensures
        ({
            let (target, default) = default_levels()[i];
            let level = level_of(config.trace_log_packs@, config.log_level, target, default);
            &&& verbosity(level) >= verbosity(default)
            &&& immutable_targets().contains(target) ==> level == default
        }),
{
}

/// Enabling one more pack raises levels or leaves them as they are.
pub proof fn more_packs_log_more(
    packs: Seq<TraceLogPacks>,
    pack: TraceLogPacks,
    global: LogLevel,
    target: LogTarget,
    default: LogLevel,
)
    ensures
        verbosity(level_of(packs, global, target, default)) <= verbosity(
            level_of(packs.push(pack), global, target, default),
        ),
{
    if in_some_pack(packs, target) {
        let i = choose|i: int|
            0 <= i < packs.len() && pack_targets(#[trigger] packs[i]).contains(target);
        assert(packs.push(pack)[i] == packs[i]);
    }
}

/// Where the parts of the logging system are to be set up.
pub struct LoggingSetup {
    /// The filter that decides what is logged.
    pub env_filter: String,
    /// The files to log to, if any.
    pub files: Option<TracingFileConfiguration>,
    /// Whether to log to the standard error stream or the system's log.
    pub stdout_or_system: bool,
    /// The Sentry DSN to report to, if any.
    pub sentry_dsn: Option<String>,
}

/// What the process remembers of its logging system.
#[derive(Clone, Copy, Debug, PartialEq, Eq, Structural)]
pub struct LoggingCtx {
    /// Whether there is a file layer that can be replaced.
    pub has_file_layer: bool,
    /// Whether reports to Sentry are enabled, where Sentry is set up.
    pub sentry_enabled: Option<bool>,
}

impl TracingConfiguration {
    /// What to set up, and what to remember of it.
    pub fn build(self) -> (r: (LoggingSetup, LoggingCtx))
        ensures
            r.0.env_filter@ == joined(directives(self), ","@),
            r.0.files == self.write_to_files,
            r.0.stdout_or_system == self.write_to_stdout_or_system,
            r.0.sentry_dsn == self.sentry_dsn,
            r.1.has_file_layer == (self.write_to_files is Some),
            r.1.sentry_enabled == (if self.sentry_dsn is Some {
                Some(true)
            } else {
                None
            }),
    {
        let env_filter: String = build_tracing_filter(&self);
        let sentry_enabled: Option<bool> = if self.sentry_dsn.is_some() {
            Some(true)
        } else {
            None
        };
        let ctx = LoggingCtx { has_file_layer: self.write_to_files.is_some(), sentry_enabled };
        let setup = LoggingSetup {
            env_filter,
            files: self.write_to_files,
            stdout_or_system: self.write_to_stdout_or_system,
            sentry_dsn: self.sentry_dsn,
        };
        (setup, ctx)
    }
}

/// Whether a trace that begins with the named span is sent to Sentry: only one
/// that begins with a call from the other language is.
pub fn samples_trace(span_name: &str, bridge_span_name: &str) -> (r: bool)
    ensures
        r == (span_name@ == bridge_span_name@),
{
    same(span_name, bridge_span_name)
}

/// Whether an event is looked at for Sentry at all: it carries a `sentry`
/// field, and reporting is enabled.
pub fn reports_event(enabled: bool, has_sentry_field: bool) -> (r: bool)
    ensures
        r == (enabled && has_sentry_field),
{
    enabled && has_sentry_field
}

/// Whether a span is reported to Sentry: all levels but the most verbose are,
/// while reporting is enabled.
pub fn reports_span(enabled: bool, level: LogLevel) -> (r: bool)
    ensures
        r == (enabled && verbosity(level) < verbosity(LogLevel::Trace)),
{
    enabled && level != LogLevel::Trace
}

/// How the asynchronous runtime is sized.
#[derive(Clone, Copy, Debug, PartialEq, Eq, Structural)]
pub enum RuntimeSize {
    /// As many threads as the runtime sees fit.
    Multithreaded,
    /// Few threads with small stacks, for processes with little memory.
    Lightweight { worker_threads: usize, thread_stack_size: usize, max_blocking_threads: usize },
}

/// The size of a lightweight runtime on a machine with so many cores: as many
/// worker threads as cores, but no more than four.
pub open spec fn lightweight_size(num_available_cores: usize) -> RuntimeSize {
    RuntimeSize::Lightweight {
        worker_threads: if num_available_cores < 4 {
            num_available_cores
        } else {
            4
        },
        thread_stack_size: 1_048_576,
        max_blocking_threads: 2,
    }
}

/// The size of a lightweight runtime on a machine with so many cores.
pub fn lightweight_runtime(num_available_cores: usize) -> (r: RuntimeSize)
    ensures
        r == lightweight_size(num_available_cores),
{
    let worker_threads: usize = if num_available_cores < 4 {
        num_available_cores
    } else {
        4
    };
    RuntimeSize::Lightweight {
        worker_threads,
        thread_stack_size: 1_048_576,
        max_blocking_threads: 2,
    }
}

/// What the process remembers once its platform has been set up.
pub struct Platform {
    pub logging: Option<LoggingCtx>,
}

impl Platform {
    /// A process that has not been set up.
    pub fn new() -> (r: Self)
        ensures
            r.logging is None,
    {
        Platform { logging: None }
    }

    /// Sets up logs and the tokio runtime for the current application.
    ///
    /// If `use_lightweight_tokio_runtime` is set to true, this will set up a
    /// lightweight tokio runtime, for processes that have memory limitations
    /// (like the NSE process on iOS). Otherwise, this can remain false, in
    /// which case a multithreaded tokio runtime will be set up.
    pub fn init_platform(
        &mut self,
        config: TracingConfiguration,
        use_lightweight_tokio_runtime: bool,
        num_available_cores: usize,
    ) -> (r: Result<(LoggingSetup, RuntimeSize), ClientError>)
        ensures
            r is Ok <==> old(self).logging is None,
            match r {
                Ok((setup, size)) => {
                    &&& final(self).logging == Some(
                        LoggingCtx {
                            has_file_layer: config.write_to_files is Some,
                            sentry_enabled: if config.sentry_dsn is Some {
                                Some(true)
                            } else {
                                None
                            },
                        },
                    )
                    &&& setup.env_filter@ == joined(directives(config), ","@)
                    &&& setup.files == config.write_to_files
                    &&& setup.stdout_or_system == config.write_to_stdout_or_system
                    &&& setup.sentry_dsn == config.sentry_dsn
                    &&& size == (if use_lightweight_tokio_runtime {
                        lightweight_size(num_available_cores)
                    } else {
                        RuntimeSize::Multithreaded
                    })
                },
                Err(error) => {
                    &&& *final(self) == *old(self)
                    &&& error matches ClientError::Generic { msg, details } && msg@
                        == "logger already initialized"@ && details is None
                },
            },
    {
        if self.logging.is_some() {
            return Err(ClientError::from_str("logger already initialized", None));
        }
        let (setup, ctx) = config.build();
        self.logging = Some(ctx);
        let size: RuntimeSize = if use_lightweight_tokio_runtime {
            lightweight_runtime(num_available_cores)
        } else {
            RuntimeSize::Multithreaded
        };
        Ok((setup, size))
    }

    /// Set the global enablement level for the Sentry layer (after the logs
    /// have been set up). Nothing changes where Sentry is not set up; the
    /// result is then false.
    pub fn enable_sentry_logging(&mut self, enabled: bool) -> (r: bool)
        ensures
            r <==> (old(self).logging matches Some(ctx) && ctx.sentry_enabled is Some),
            !r ==> *final(self) == *old(self),
            r ==> final(self).logging == Some(
                LoggingCtx { sentry_enabled: Some(enabled), ..old(self).logging->0 },
            ),
    {
        match self.logging {
            Some(ctx) => {
                if ctx.sentry_enabled.is_some() {
                    self.logging =
                    Some(
                        LoggingCtx {
                            has_file_layer: ctx.has_file_layer,
                            sentry_enabled: Some(enabled),
                        },
                    );
                    true
                } else {
                    false
                }
            },
            None => false,
        }
    }

    /// Whether the file writer can be replaced by one with a new
    /// configuration: only once the platform has been set up to write to
    /// files.
    pub fn reload_tracing_file_writer(&self) -> (r: Result<(), ClientError>)
        ensures
            match self.logging {
                None => r matches Err(ClientError::Generic { msg, details }) && msg@
                    == "Logging hasn't been initialized yet"@ && details is None,
                Some(ctx) => if ctx.has_file_layer {
                    r is Ok
                } else {
                    r matches Err(ClientError::Generic { msg, details }) && msg@
                        == "Logging wasn't initialized with a file config"@ && details is None
                },
            },
    {
        match self.logging {
            None => Err(ClientError::from_str("Logging hasn't been initialized yet", None)),
            Some(ctx) => {
                if ctx.has_file_layer {
                    Ok(())
                } else {
                    Err(
                        ClientError::from_str(
                            "Logging wasn't initialized with a file config",
                            None,
                        ),
                    )
                }
            },
        }
    }

    /// The error of a file writer that could not be replaced.
    pub fn reload_failed(error: &str) -> (r: ClientError)
        ensures
            r matches ClientError::Generic { msg, details } && msg@
                == "Failed to reload file config: "@ + error@ && details is None,
    {
        let msg: String = concat2("Failed to reload file config: ", error);
        ClientError::from_str(msg.as_str(), None)
    }
}

/// How log lines are laid out.
#[derive(Clone, Copy, Debug, PartialEq, Eq, Structural)]
pub struct EventFormatter {
    pub display_timestamp: bool,
    pub display_level: bool,
}

/// A span that an event was logged in.
pub struct SpanRecord {
    pub name: String,
    /// The fields of the span, as they were written when it was entered.
    pub fields: Option<String>,
}

/// An event to be logged.
pub struct EventRecord {
    /// When it happened, if the clock could be read.
    pub timestamp: Option<String>,
    pub level: LogLevel,
    pub target: String,
    /// The fields of the event, already written.
    pub fields: String,
    /// Where in the source it comes from.
    pub file: Option<String>,
    pub line: Option<u32>,
    /// The spans around it, from the outermost to the innermost.
    pub spans: Option<Vec<SpanRecord>>,
}

/// How a source file is shown: one of a dependency without the path of the
/// registry's directory.
pub open spec fn shown_filename(filename: Seq<char>) -> Seq<char> {
    match split_once_spec(filename, ".cargo/registry/src/index.crates.io"@) {
        Some((_, rest)) => match split_once_spec(rest, "/"@) {
            Some((_, rest)) => "<crates.io>/"@ + rest,
            None => filename,
        },
        None => filename,
    }
}

/// How a span is shown.
pub open spec fn shown_span(span: SpanRecord) -> Seq<char> {
    match span.fields {
        Some(fields) => if fields@.len() > 0 {
            span.name@ + "{"@ + fields@ + "}"@
        } else {
            span.name@
        },
        None => span.name@,
    }
}

/// How the spans are shown.
pub open spec fn shown_spans(spans: Seq<SpanRecord>) -> Seq<Seq<char>> {
    Seq::new(spans.len(), |i: int| shown_span(spans[i]))
}

/// The place in the source, as shown.
pub open spec fn shown_source(file: Option<String>, line: Option<u32>) -> Seq<char> {
    match file {
        Some(file) => " | "@ + shown_filename(file@) + (match line {
            Some(line) => ":"@ + decimal(line as nat),
            None => Seq::empty(),
        }),
        None => Seq::empty(),
    }
}

/// The time of an event, as shown.
pub open spec fn shown_timestamp(timestamp: Option<String>) -> Seq<char> {
    match timestamp {
        Some(timestamp) => timestamp@,
        None => "<unknown time>"@,
    }
}

/// The line that an event is logged as.
pub open spec fn event_line(formatter: EventFormatter, event: EventRecord) -> Seq<char> {
    (if formatter.display_timestamp {
        shown_timestamp(event.timestamp) + " "@
    } else {
        Seq::empty()
    }) + (if formatter.display_level {
        level_column(event.level) + " "@
    } else {
        Seq::empty()
    }) + event.target@ + ": "@ + event.fields@ + shown_source(event.file, event.line) + (
    match event.spans {
        Some(spans) => " | spans: "@ + joined(shown_spans(spans@), " > "@),
        None => Seq::empty(),
    }) + "\n"@
}

impl EventFormatter {
    /// The layout for files and for the standard error stream.
    pub fn new() -> (r: Self)
        ensures
            r == (EventFormatter { display_timestamp: true, display_level: true }),
    {
        EventFormatter { display_timestamp: true, display_level: true }
    }

    /// The layout for logcat, which captures level and time by itself.
    pub fn for_logcat() -> (r: Self)
        ensures
            r == (EventFormatter { display_timestamp: false, display_level: false }),
    {
        EventFormatter { display_timestamp: false, display_level: false }
    }

    /// How a source file is shown.
    pub fn write_filename(&self, filename: &str) -> (r: String)
        ensures
            r@ == shown_filename(filename@),
    {
        match split_once(filename, ".cargo/registry/src/index.crates.io") {
            Some((_, rest)) => match split_once(rest, "/") {
                Some((_, rest)) => concat2("<crates.io>/", rest),
                None => filename.to_owned(),
            },
            None => filename.to_owned(),
        }
    }

    /// How a span is shown.
    fn format_span(&self, span: &SpanRecord) -> (r: String)
        ensures
            r@ == shown_span(*span),
    {
        match &span.fields {
            Some(fields) => {
                if fields.as_str().is_empty() {
                    span.name.clone()
                } else {
                    let opened: String = concat3(span.name.as_str(), "{", fields.as_str());
                    concat2(opened.as_str(), "}")
                }
            },
            None => span.name.clone(),
        }
    }

    /// The line that an event is logged as.
    #[verifier::spinoff_prover]
    #[verifier::rlimit(60)]
    pub fn format_event(&self, event: &EventRecord) -> (r: String)
        ensures
            r@ == event_line(*self, *event),
    {
        let mut line: String = String::new();
        if self.display_timestamp {
            match &event.timestamp {
                Some(timestamp) => line.append(timestamp.as_str()),
                None => line.append("<unknown time>"),
            }
            line.append(" ");
        }
        if self.display_level {
            line.append(event.level.as_column());
            line.append(" ");
        }
        line.append(event.target.as_str());
        line.append(": ");
        line.append(event.fields.as_str());
        let ghost head = line@;
        if let Some(file) = &event.file {
            line.append(" | ");
            line.append(self.write_filename(file.as_str()).as_str());
            if let Some(number) = event.line {
                line.append(":");
                line.append(decimal_string(number as u64).as_str());
            }
        }
        assert(line@ =~= head + shown_source(event.file, event.line));
        let ghost with_source = line@;
        if let Some(spans) = &event.spans {
            line.append(" | spans: ");
            let mut shown: Vec<String> = Vec::new();
            let mut i: usize = 0;
            while i < spans.len()
                invariant
                    i <= spans.len(),
                    views(shown@) =~= shown_spans(spans@).take(i as int),
                decreases spans.len() - i,
            {
                let ghost before = shown@;
                shown.push(self.format_span(&spans[i]));
                assert(views(shown@) =~= views(before).push(shown_span(spans@[i as int])));
                i = i + 1;
            }
            assert(shown_spans(spans@).take(i as int) =~= shown_spans(spans@));
            line.append(join(&shown, " > ").as_str());
            assert(line@ =~= with_source + (" | spans: "@ + joined(shown_spans(spans@), " > "@)));
        }
        line.append("\n");
        proof {
            assert(line@ =~= event_line(*self, *event));
        }
        line
    }
}

/// What is in a pack that was asked for is traced, but for the targets whose level never changes;
/// everything else logs as verbosely as it does by default, or as was asked for, if that is more.
pub proof fn targets_log_at_their_level(
    config: TracingConfiguration,
    target: LogTarget,
    default: LogLevel,
    r: LogLevel,
    i: int,
)
    requires
        call_ensures(target_level, (&config, target, default), r),
    ensures
        target is Hyper || target is MatrixSdk || target is MatrixSdkFfi
            || target is MatrixSdkCommonCrossProcessLock
            || target is MatrixSdkBaseStoreAmbiguityMap ==> r == default,
        !(target is Hyper || target is MatrixSdk || target is MatrixSdkFfi
            || target is MatrixSdkCommonCrossProcessLock
            || target is MatrixSdkBaseStoreAmbiguityMap) ==> {
            &&& verbosity(r) >= verbosity(default) && verbosity(r) >= verbosity(config.log_level)
            &&& 0 <= i < config.trace_log_packs@.len() && pack_targets(
                config.trace_log_packs@[i],
            ).contains(target) ==> r is Trace
            &&& config.trace_log_packs@.len() == 0 ==> r == default || r == config.log_level
        },
{
    let fixed = immutable_targets();
    assert(fixed[0] is Hyper && fixed[1] is MatrixSdk && fixed[2] is MatrixSdkFfi);
    assert(fixed[3] is MatrixSdkCommonCrossProcessLock && fixed[4] is MatrixSdkBaseStoreAmbiguityMap);
    if fixed.contains(target) {
        let k = choose|k: int| 0 <= k < fixed.len() && fixed[k] == target;
        assert(k == 0 || k == 1 || k == 2 || k == 3 || k == 4);
    } else {
        if target is Hyper {
            assert(fixed[0] == target);
        }
        if target is MatrixSdk {
            assert(fixed[1] == target);
        }
        if target is MatrixSdkFfi {
            assert(fixed[2] == target);
        }
        if target is MatrixSdkCommonCrossProcessLock {
            assert(fixed[3] == target);
        }
        if target is MatrixSdkBaseStoreAmbiguityMap {
            assert(fixed[4] == target);
        }
    }
}

/// Logs go where the configuration says, and reports are on from the start where there is
/// somewhere to report to.
pub proof fn logs_go_where_configured(
    config: TracingConfiguration,
    r: (LoggingSetup, LoggingCtx),
    filter: String,
)
    requires
        call_ensures(TracingConfiguration::build, (config,), r),
        call_ensures(build_tracing_filter, (&config,), filter),
    ensures
        r.0.files == config.write_to_files,
        r.0.stdout_or_system == config.write_to_stdout_or_system,
        r.0.sentry_dsn == config.sentry_dsn,
        r.0.env_filter@ == filter@,
        r.1.has_file_layer <==> config.write_to_files is Some,
        r.1.sentry_enabled is Some <==> config.sentry_dsn is Some,
        r.1.sentry_enabled is Some ==> r.1.sentry_enabled->0,
{
}

/// Levels are told apart by their names, which stand in columns of the same width; a level is more
/// verbose than those before it.
pub proof fn levels_have_their_names(
    level: LogLevel,
    name: &'static str,
    column: &'static str,
    other: LogLevel,
    more: bool,
)
    requires
        call_ensures(LogLevel::as_str, (&level,), name),
        call_ensures(LogLevel::as_column, (&level,), column),
        call_ensures(LogLevel::is_more_verbose_than, (&level, other), more),
    ensures
        level is Error <==> name@ == "error"@,
        level is Warn <==> name@ == "warn"@,
        level is Info <==> name@ == "info"@,
        level is Debug <==> name@ == "debug"@,
        level is Trace <==> name@ == "trace"@,
        column@.len() == 5,
        level is Error ==> !more,
        level is Trace ==> (more <==> !(other is Trace)),
        level is Warn ==> (more <==> other is Error),
        level is Info ==> (more <==> other is Error || other is Warn),
        level is Debug ==> (more <==> !(other is Debug || other is Trace)),
{
    reveal_strlit("error");
    reveal_strlit("warn");
    reveal_strlit("info");
    reveal_strlit("debug");
    reveal_strlit("trace");
    reveal_strlit("ERROR");
    reveal_strlit(" WARN");
    reveal_strlit(" INFO");
    reveal_strlit("DEBUG");
    reveal_strlit("TRACE");
    assert("error"@.len() == 5 && "warn"@.len() == 4 && "info"@.len() == 4);
    assert("debug"@.len() == 5 && "trace"@.len() == 5);
    assert("error"@[0] == 'e' && "debug"@[0] == 'd' && "trace"@[0] == 't');
    assert("warn"@[0] == 'w' && "info"@[0] == 'i');
}

/// Events are reported where reports are on and the event asks for it, spans but for the most
/// verbose ones; and a small runtime has no more than four threads and no more than there are
/// cores.
pub proof fn reports_are_asked_for(
    enabled: bool,
    asked: bool,
    level: LogLevel,
    event: bool,
    span: bool,
    cores: usize,
    size: RuntimeSize,
)
    requires
        call_ensures(reports_event, (enabled, asked), event),
        call_ensures(reports_span, (enabled, level), span),
        call_ensures(lightweight_runtime, (cores,), size),
    ensures
        event <==> enabled && asked,
        span <==> enabled && !(level is Trace),
        size is Lightweight,
        size->worker_threads <= 4 && size->worker_threads <= cores,
        cores <= 4 ==> size->worker_threads == cores,
        cores >= 4 ==> size->worker_threads == 4,
{
}

/// A line begins with the time and the level where they are shown, and then tells the target and
/// what was logged.
pub proof fn lines_tell_target_and_fields(
    event: EventRecord,
    all: EventFormatter,
    bare: EventFormatter,
    long: String,
    short: String,
)
    requires
        call_ensures(EventFormatter::new, (), all),
        call_ensures(EventFormatter::for_logcat, (), bare),
        call_ensures(EventFormatter::format_event, (&all, &event), long),
        call_ensures(EventFormatter::format_event, (&bare, &event), short),
    ensures
        event.timestamp is Some ==> long@ == event.timestamp->0@ + " "@ + level_column(event.level)
            + " "@ + short@,
        crate::text::has_prefix(short@, event.target@ + ": "@ + event.fields@),
        short@[short@.len() - 1] == '\n',
{
    reveal_strlit("\n");
    reveal_strlit(" ");
    let head = event.target@ + ": "@ + event.fields@;
    let source = shown_source(event.file, event.line);
    let spans = match event.spans {
        Some(spans) => " | spans: "@ + joined(shown_spans(spans@), " > "@),
        None => Seq::empty(),
    };
    let rest = source + spans + "\n"@;
    assert(short@ =~= head + rest);
    crate::text::lemma_prefix_of_concat(head, rest);
    if event.timestamp is Some {
        assert(long@ =~= event.timestamp->0@ + " "@ + level_column(event.level) + " "@ + short@);
    }
}

/// The filter has a directive for panics, one for each target that is known, and one for each extra
/// target at the level that was asked for.
pub proof fn every_target_has_a_directive(
    config: TracingConfiguration,
    i: int,
    filter: String,
)
    requires
        call_ensures(build_tracing_filter, (&config,), filter),
        0 <= i < config.extra_targets@.len(),
    ensures
        filter@ == joined(directives(config), ","@),
        directives(config).len() == 1 + default_levels().len() + config.extra_targets@.len(),
        directives(config)[0] == "panic=error"@,
        directives(config)[1 + default_levels().len() + i] == config.extra_targets@[i]@ + "="@
            + level_name(config.log_level),
{
}

/// Logs are only reloaded where they go to files, and only once they are set up.
pub proof fn logs_are_reloaded_where_there_are_files(platform: Platform, r: Result<(), ClientError>, new: Platform)
    requires
        call_ensures(Platform::reload_tracing_file_writer, (&platform,), r),
        call_ensures(Platform::new, (), new),
    ensures
        r is Ok <==> platform.logging is Some && platform.logging->0.has_file_layer,
        new.logging is None,
{
}

/// The platform is set up once, as it was configured; later attempts change nothing. Reports can be
/// turned on and off where there is somewhere to report to.
pub proof fn the_platform_is_set_up_once(
    platform: &mut Platform,
    config: TracingConfiguration,
    lightweight: bool,
    cores: usize,
    r: Result<(LoggingSetup, RuntimeSize), ClientError>,
    running: &mut Platform,
    enabled: bool,
    turned: bool,
)
    requires
        call_ensures(Platform::init_platform, (platform, config, lightweight, cores), r),
        call_ensures(Platform::enable_sentry_logging, (running, enabled), turned),
    ensures
        r is Ok <==> mut_ref_current(platform).logging is None,
        r is Err ==> mut_ref_future(platform) == mut_ref_current(platform),
        r matches Ok((setup, size)) ==> {
            &&& setup.files == config.write_to_files && setup.sentry_dsn == config.sentry_dsn
            &&& setup.stdout_or_system == config.write_to_stdout_or_system
            &&& size is Lightweight <==> lightweight
            &&& mut_ref_future(platform).logging is Some
            &&& mut_ref_future(platform).logging->0.has_file_layer
                <==> config.write_to_files is Some
            &&& mut_ref_future(platform).logging->0.sentry_enabled is Some
                <==> config.sentry_dsn is Some
        },
        turned <==> mut_ref_current(running).logging is Some
            && mut_ref_current(running).logging->0.sentry_enabled is Some,
        turned ==> mut_ref_future(running).logging is Some
            && mut_ref_future(running).logging->0.sentry_enabled == Some(enabled)
            && mut_ref_future(running).logging->0.has_file_layer
            == mut_ref_current(running).logging->0.has_file_layer,
        !turned ==> mut_ref_future(running) == mut_ref_current(running),
{
}

/// Each target that is known logs at its own level by default.
#[verifier::spinoff_prover]
#[verifier::rlimit(60)]
pub proof fn default_levels_are_these(r: Vec<(LogTarget, LogLevel)>, i: int)
    requires
        call_ensures(default_target_log_levels, (), r),
        0 <= i < r@.len(),
    ensures
        r@.len() == 21,
        r@[i].1 is Warn <==> r@[i].0 is Hyper
            || r@[i].0 is MatrixSdkCommonCrossProcessLock
            || r@[i].0 is MatrixSdkCommonDeserializedResponses
            || r@[i].0 is MatrixSdkBaseStoreAmbiguityMap,
        r@[i].1 is Info <==> r@[i].0 is MatrixSdkFfi
            || r@[i].0 is MatrixSdk
            || r@[i].0 is MatrixSdkSlidingSync
            || r@[i].0 is MatrixSdkBaseSlidingSync
            || r@[i].0 is MatrixSdkUiTimeline
            || r@[i].0 is MatrixSdkSendQueue
            || r@[i].0 is MatrixSdkEventCache
            || r@[i].0 is MatrixSdkLatestEvents
            || r@[i].0 is MatrixSdkBaseEventCache
            || r@[i].0 is MatrixSdkEventCacheStore
            || r@[i].0 is MatrixSdkUiNotificationClient,
        r@[i].1 is Trace <==> r@[i].0 is MatrixSdkClient
            || r@[i].0 is MatrixSdkCryptoAccount
            || r@[i].0 is MatrixSdkOidc,
        r@[i].1 is Debug <==> r@[i].0 is MatrixSdkCrypto
            || r@[i].0 is MatrixSdkHttpClient
            || r@[i].0 is MatrixSdkBaseResponseProcessors,
{
}

/// A pack of traces has the targets that it is named after.
#[verifier::spinoff_prover]
#[verifier::rlimit(60)]
pub proof fn packs_have_their_targets(pack: TraceLogPacks, r: Vec<LogTarget>, target: LogTarget)
    requires
        call_ensures(TraceLogPacks::targets, (&pack,), r),
    ensures
        pack is EventCache ==> (r@.contains(target) <==> target is MatrixSdkEventCache
            || target is MatrixSdkBaseEventCache
            || target is MatrixSdkEventCacheStore
            || target is MatrixSdkCommonCrossProcessLock
            || target is MatrixSdkCommonDeserializedResponses),
        pack is SendQueue ==> (r@.contains(target) <==> target is MatrixSdkSendQueue),
        pack is Timeline ==> (r@.contains(target) <==> target is MatrixSdkUiTimeline
            || target is MatrixSdkCommonDeserializedResponses),
        pack is NotificationClient ==> (r@.contains(target) <==> target is MatrixSdkUiNotificationClient),
        pack is SyncProfiling ==> (r@.contains(target) <==> target is MatrixSdkSlidingSync
            || target is MatrixSdkBaseSlidingSync
            || target is MatrixSdkBaseResponseProcessors
            || target is MatrixSdkCrypto
            || target is MatrixSdkCommonCrossProcessLock
            || target is MatrixSdkCommonDeserializedResponses),
        pack is LatestEvents ==> (r@.contains(target) <==> target is MatrixSdkLatestEvents
            || target is MatrixSdkSendQueue
            || target is MatrixSdkEventCache),
{
    if pack is EventCache {
        assert(r@.len() == 5);
        assert(r@[0] is MatrixSdkEventCache);
        assert(r@[1] is MatrixSdkBaseEventCache);
        assert(r@[2] is MatrixSdkEventCacheStore);
        assert(r@[3] is MatrixSdkCommonCrossProcessLock);
        assert(r@[4] is MatrixSdkCommonDeserializedResponses);
        if target is MatrixSdkEventCache {
            assert(r@[0] == target);
        }
        if target is MatrixSdkBaseEventCache {
            assert(r@[1] == target);
        }
        if target is MatrixSdkEventCacheStore {
            assert(r@[2] == target);
        }
        if target is MatrixSdkCommonCrossProcessLock {
            assert(r@[3] == target);
        }
        if target is MatrixSdkCommonDeserializedResponses {
            assert(r@[4] == target);
        }
    }
    if pack is SendQueue {
        assert(r@.len() == 1);
        assert(r@[0] is MatrixSdkSendQueue);
        if target is MatrixSdkSendQueue {
            assert(r@[0] == target);
        }
    }
    if pack is Timeline {
        assert(r@.len() == 2);
        assert(r@[0] is MatrixSdkUiTimeline);
        assert(r@[1] is MatrixSdkCommonDeserializedResponses);
        if target is MatrixSdkUiTimeline {
            assert(r@[0] == target);
        }
        if target is MatrixSdkCommonDeserializedResponses {
            assert(r@[1] == target);
        }
    }
    if pack is NotificationClient {
        assert(r@.len() == 1);
        assert(r@[0] is MatrixSdkUiNotificationClient);
        if target is MatrixSdkUiNotificationClient {
            assert(r@[0] == target);
        }
    }
    if pack is SyncProfiling {
        assert(r@.len() == 6);
        assert(r@[0] is MatrixSdkSlidingSync);
        assert(r@[1] is MatrixSdkBaseSlidingSync);
        assert(r@[2] is MatrixSdkBaseResponseProcessors);
        assert(r@[3] is MatrixSdkCrypto);
        assert(r@[4] is MatrixSdkCommonCrossProcessLock);
        assert(r@[5] is MatrixSdkCommonDeserializedResponses);
        if target is MatrixSdkSlidingSync {
            assert(r@[0] == target);
        }
        if target is MatrixSdkBaseSlidingSync {
            assert(r@[1] == target);
        }
        if target is MatrixSdkBaseResponseProcessors {
            assert(r@[2] == target);
        }
        if target is MatrixSdkCrypto {
            assert(r@[3] == target);
        }
        if target is MatrixSdkCommonCrossProcessLock {
            assert(r@[4] == target);
        }
        if target is MatrixSdkCommonDeserializedResponses {
            assert(r@[5] == target);
        }
    }
    if pack is LatestEvents {
        assert(r@.len() == 3);
        assert(r@[0] is MatrixSdkLatestEvents);
        assert(r@[1] is MatrixSdkSendQueue);
        assert(r@[2] is MatrixSdkEventCache);
        if target is MatrixSdkLatestEvents {
            assert(r@[0] == target);
        }
        if target is MatrixSdkSendQueue {
            assert(r@[1] == target);
        }
        if target is MatrixSdkEventCache {
            assert(r@[2] == target);
        }
    }
    if r@.contains(target) {
        let k = choose|k: int| 0 <= k < r@.len() && r@[k] == target;
        assert(k == 0 || k == 1 || k == 2 || k == 3 || k == 4 || k == 5);
    }
}

/// A line tells the target and what was logged, then where, with the line of the file, then in which
/// spans, each with its fields.
#[verifier::spinoff_prover]
#[verifier::rlimit(60)]
pub proof fn lines_tell_where_and_in_which_spans(
    event: EventRecord,
    formatter: EventFormatter,
    r: String,
    name: Option<String>,
)
    requires
        call_ensures(EventFormatter::for_logcat, (), formatter),
        call_ensures(EventFormatter::format_event, (&formatter, &event), r),
        event.file is Some <==> name is Some,
        event.file matches Some(file) ==> name->0@ == shown_filename(file@),
    ensures
        event.file is None && event.spans is None ==> r@ == event.target@ + ": "@ + event.fields@
            + "\n"@,
        event.file is Some && event.line is None && event.spans is None ==> r@ == event.target@
            + ": "@ + event.fields@ + " | "@ + name->0@ + "\n"@,
        event.file is Some && event.line is Some && event.spans is None ==> r@ == event.target@
            + ": "@ + event.fields@ + " | "@ + name->0@ + ":"@ + decimal(event.line->0 as nat)
            + "\n"@,
        event.file is None && event.spans is Some && event.spans->0@.len() == 1
            && event.spans->0@[0].fields is None ==> r@ == event.target@ + ": "@ + event.fields@
            + " | spans: "@ + event.spans->0@[0].name@ + "\n"@,
        event.file is None && event.spans is Some && event.spans->0@.len() == 1
            && event.spans->0@[0].fields is Some && event.spans->0@[0].fields->0@.len() > 0 ==> r@
            == event.target@ + ": "@ + event.fields@ + " | spans: "@ + event.spans->0@[0].name@
            + "{"@ + event.spans->0@[0].fields->0@ + "}"@ + "\n"@,
{
    let head = event.target@ + ": "@ + event.fields@;
    let source = shown_source(event.file, event.line);
    if event.file is None && event.spans is None {
        assert(r@ =~= head + "\n"@);
    }
    if event.file is Some && event.spans is None {
        if event.line is None {
            assert(r@ =~= head + " | "@ + name->0@ + "\n"@);
        } else {
            assert(r@ =~= head + " | "@ + name->0@ + ":"@ + decimal(event.line->0 as nat) + "\n"@);
        }
    }
    if event.file is None && event.spans is Some && event.spans->0@.len() == 1 {
        let span = event.spans->0@[0];
        let shown = shown_spans(event.spans->0@);
        assert(shown.len() == 1 && shown[0] == shown_span(span));
        assert(joined(shown, " > "@) == shown_span(span));
        if span.fields is None {
            assert(r@ =~= head + " | spans: "@ + span.name@ + "\n"@);
        } else if span.fields->0@.len() > 0 {
            assert(r@ =~= head + " | spans: "@ + span.name@ + "{"@ + span.fields->0@ + "}"@ + "\n"@);
        }
    }
}

/// The name of a file that does not come from the registry of crates is shown as it is; of one that
/// does, what stands behind the directory of the registry.
pub proof fn file_names_are_shown(filename: &str, formatter: EventFormatter, r: String)
    requires
        call_ensures(EventFormatter::write_filename, (&formatter, filename), r),
    ensures
        split_once_spec(filename@, ".cargo/registry/src/index.crates.io"@) is None ==> r@
            == filename@,
        split_once_spec(filename@, ".cargo/registry/src/index.crates.io"@) matches Some((_, rest))
            ==> (split_once_spec(rest, "/"@) matches Some((_, path)) ==> r@ == "<crates.io>/"@
            + path),
{
}

} // verus!
