//! Building a client: the options, and what they ask the SDK for.

use vstd::prelude::*;

use crate::error::ClientError;
use crate::ids::{
    parse_server_name, parse_user_server_name, server_name_refusal, user_id_refusal,
};
use crate::text::{concat2, concat3, split_once_spec};

verus! {

/// A list of bytes containing a certificate in DER or PEM form.
pub type CertificateBytes = Vec<u8>;

/// How the homeserver is named.
#[derive(Clone)]
pub enum HomeserverConfig {
    Url(String),
    ServerName(String),
    ServerNameOrUrl(String),
}

/// Why a client could not be built.
pub enum ClientBuildError {
    InvalidServerName,
    ServerUnreachable { message: String },
    WellKnownLookupFailed { message: String },
    WellKnownDeserializationError { message: String },
    SlidingSync { message: String },
    SlidingSyncVersion { message: String },
    Sdk { message: String },
    EventCache { message: String },
    Generic { message: String },
}

/// What the SDK says when it cannot build a client.
pub enum SdkClientBuildError {
    InvalidServerName,
    /// The homeserver could not be reached.
    Http { message: String },
    /// The server answered the discovery with an error.
    AutoDiscoveryServer { message: String },
    /// The answer to the discovery could not be read.
    AutoDiscoveryDeserialization { message: String },
    SlidingSyncVersion { message: String },
    /// Any other error.
    Other { message: String },
}

impl vstd::std_specs::convert::FromSpecImpl<SdkClientBuildError> for ClientBuildError {
    open spec fn obeys_from_spec() -> bool {
        true
    }

    open spec fn from_spec(e: SdkClientBuildError) -> ClientBuildError {
        match e {
            SdkClientBuildError::InvalidServerName => ClientBuildError::InvalidServerName,
            SdkClientBuildError::Http { message } => ClientBuildError::ServerUnreachable {
                message,
            },
            SdkClientBuildError::AutoDiscoveryServer { message } => {
                ClientBuildError::WellKnownLookupFailed { message }
            },
            SdkClientBuildError::AutoDiscoveryDeserialization { message } => {
                ClientBuildError::WellKnownDeserializationError { message }
            },
            SdkClientBuildError::SlidingSyncVersion { message } => {
                ClientBuildError::SlidingSyncVersion { message }
            },
            SdkClientBuildError::Other { message } => ClientBuildError::Sdk { message },
        }
    }
}

impl From<SdkClientBuildError> for ClientBuildError {
    fn from(e: SdkClientBuildError) -> (r: ClientBuildError) {
        match e {
            SdkClientBuildError::InvalidServerName => ClientBuildError::InvalidServerName,
            SdkClientBuildError::Http { message } => ClientBuildError::ServerUnreachable {
                message,
            },
            SdkClientBuildError::AutoDiscoveryServer { message } => {
                ClientBuildError::WellKnownLookupFailed { message }
            },
            SdkClientBuildError::AutoDiscoveryDeserialization { message } => {
                ClientBuildError::WellKnownDeserializationError { message }
            },
            SdkClientBuildError::SlidingSyncVersion { message } => {
                ClientBuildError::SlidingSyncVersion { message }
            },
            SdkClientBuildError::Other { message } => ClientBuildError::Sdk { message },
        }
    }
}

/// The text of an error.
pub open spec fn build_error_text(error: ClientBuildError) -> Seq<char> {
    match error {
        ClientBuildError::InvalidServerName => "The supplied server name is invalid."@,
        ClientBuildError::ServerUnreachable { message } => message@,
        ClientBuildError::WellKnownLookupFailed { message } => message@,
        ClientBuildError::WellKnownDeserializationError { message } => message@,
        ClientBuildError::SlidingSync { message } => message@,
        ClientBuildError::SlidingSyncVersion { message } => message@,
        ClientBuildError::Sdk { message } => message@,
        ClientBuildError::EventCache { message } => message@,
        ClientBuildError::Generic { message } => "Failed to build the client: "@ + message@,
    }
}

impl ClientBuildError {
    /// The text of the error.
    pub fn to_string(&self) -> (r: String)
        ensures
            r@ == build_error_text(*self),
    {
        match self {
            ClientBuildError::InvalidServerName => {
                "The supplied server name is invalid.".to_owned()
            },
            ClientBuildError::ServerUnreachable { message } => message.clone(),
            ClientBuildError::WellKnownLookupFailed { message } => message.clone(),
            ClientBuildError::WellKnownDeserializationError { message } => message.clone(),
            ClientBuildError::SlidingSync { message } => message.clone(),
            ClientBuildError::SlidingSyncVersion { message } => message.clone(),
            ClientBuildError::Sdk { message } => message.clone(),
            ClientBuildError::EventCache { message } => message.clone(),
            ClientBuildError::Generic { message } => {
                concat2("Failed to build the client: ", message.as_str())
            },
        }
    }

    /// What an error of the client becomes.
    pub fn from_client_error(error: &ClientError) -> (r: Self)
        ensures
            r matches ClientBuildError::Generic { message } && message@ == match *error {
                ClientError::Generic { msg, .. } => "client error: "@ + msg@,
                ClientError::MatrixApi { code, msg, .. } => "api error "@ + code@ + ": "@ + msg@,
            },
    {
        ClientBuildError::Generic { message: error.to_string() }
    }
}

/// When keys are fetched from a backup.
#[derive(Clone, Copy, Debug, PartialEq, Eq, Structural)]
pub enum BackupDownloadStrategy {
    OneShot,
    AfterDecryptionFailure,
    Manual,
}

/// How the client sets up its encryption by itself.
#[derive(Clone, Copy, Debug, PartialEq, Eq, Structural)]
pub struct EncryptionSettings {
    pub auto_enable_cross_signing: bool,
    pub backup_download_strategy: BackupDownloadStrategy,
    pub auto_enable_backups: bool,
}

/// Which devices get the keys of a message.
#[derive(Clone, Copy, Debug, PartialEq, Eq, Structural)]
pub enum CollectStrategy {
    AllDevices,
    ErrorOnVerifiedUserProblem,
    IdentityBasedStrategy,
    OnlyTrustedDevices,
}

/// Whose messages are decrypted.
#[derive(Clone, Copy, Debug, PartialEq, Eq, Structural)]
pub enum TrustRequirement {
    Untrusted,
    CrossSignedOrLegacy,
    CrossSigned,
}

/// How messages are decrypted.
#[derive(Clone, Copy, Debug, PartialEq, Eq, Structural)]
pub struct DecryptionSettings {
    pub sender_device_trust_requirement: TrustRequirement,
}

/// Whether the client knows of threads.
#[derive(Clone, Copy, Debug, PartialEq, Eq, Structural)]
pub enum ThreadingSupport {
    Enabled { with_subscriptions: bool },
    Disabled,
}

/// Which version of sliding sync is used, and how it is found out.
#[derive(Clone, Copy, Debug, PartialEq, Eq, Structural)]
pub enum SlidingSyncVersionBuilder {
    /// Sliding sync is not used.
    NoVersion,
    Native,
    DiscoverNative,
}

/// The store paths the client will use when built.
#[derive(Clone)]
pub struct SessionPaths {
    /// The path that the client will use to store its data.
    pub data_path: String,
    /// The path that the client will use to store its caches. This path can be
    /// the same as the data path if you prefer to keep everything in one place.
    pub cache_path: String,
}

/// The config to use for HTTP requests by default in this client.
#[derive(Clone, Copy, Debug, PartialEq, Eq, Structural)]
pub struct RequestConfig {
    /// Max number of retries.
    pub retry_limit: Option<u64>,
    /// Timeout for a request in milliseconds.
    pub timeout: Option<u64>,
    /// Max number of concurrent requests. No value means no limits.
    pub max_concurrent_requests: Option<u64>,
    /// Base delay between retries.
    pub max_retry_time: Option<u64>,
}

/// The options of a client to be built.
#[derive(Clone)]
pub struct ClientBuilder {
    pub session_paths: Option<SessionPaths>,
    pub session_passphrase: Option<String>,
    pub session_pool_max_size: Option<usize>,
    pub session_cache_size: Option<u32>,
    pub session_journal_size_limit: Option<u32>,
    pub system_is_memory_constrained: bool,
    pub username: Option<String>,
    pub homeserver_cfg: Option<HomeserverConfig>,
    pub sliding_sync_version_builder: SlidingSyncVersionBuilder,
    pub disable_automatic_token_refresh: bool,
    pub cross_process_store_locks_holder_name: Option<String>,
    pub enable_oidc_refresh_lock: bool,
    /// Whether something keeps the session for the client.
    pub has_session_delegate: bool,
    pub encryption_settings: EncryptionSettings,
    /// None for what the SDK does by default.
    pub room_key_recipient_strategy: Option<CollectStrategy>,
    pub decryption_settings: DecryptionSettings,
    pub enable_share_history_on_invite: bool,
    pub request_config: Option<RequestConfig>,
    pub user_agent: Option<String>,
    pub proxy: Option<String>,
    pub disable_ssl_verification: bool,
    pub disable_built_in_root_certificates: bool,
    pub additional_root_certificates: Vec<CertificateBytes>,
    pub threading_support: ThreadingSupport,
}

/// The timeout applies to each read operation, and resets after a successful
/// read. This is more appropriate for detecting stalled connections when the
/// size isn't known beforehand. In seconds.
pub const DEFAULT_READ_TIMEOUT: u64 = 60;

impl ClientBuilder {
    /// A client with nothing asked for.
    pub fn new() -> (r: Self)
        ensures
            r.session_paths is None,
            r.session_passphrase is None,
            r.session_pool_max_size is None,
            r.session_cache_size is None,
            r.session_journal_size_limit is None,
            !r.system_is_memory_constrained,
            r.username is None,
            r.homeserver_cfg is None,
            r.sliding_sync_version_builder is NoVersion,
            !r.disable_automatic_token_refresh,
            r.cross_process_store_locks_holder_name is None,
            !r.enable_oidc_refresh_lock,
            !r.has_session_delegate,
            r.encryption_settings == (EncryptionSettings {
                auto_enable_cross_signing: false,
                backup_download_strategy: BackupDownloadStrategy::AfterDecryptionFailure,
                auto_enable_backups: false,
            }),
            r.room_key_recipient_strategy is None,
            r.decryption_settings == (DecryptionSettings {
                sender_device_trust_requirement: TrustRequirement::Untrusted,
            }),
            !r.enable_share_history_on_invite,
            r.request_config is None,
            r.user_agent is None,
            r.proxy is None,
            !r.disable_ssl_verification,
            !r.disable_built_in_root_certificates,
            r.additional_root_certificates@.len() == 0,
            r.threading_support is Disabled,
    {
        ClientBuilder {
            session_paths: None,
            session_passphrase: None,
            session_pool_max_size: None,
            session_cache_size: None,
            session_journal_size_limit: None,
            system_is_memory_constrained: false,
            username: None,
            homeserver_cfg: None,
            user_agent: None,
            sliding_sync_version_builder: SlidingSyncVersionBuilder::NoVersion,
            proxy: None,
            disable_ssl_verification: false,
            disable_automatic_token_refresh: false,
            cross_process_store_locks_holder_name: None,
            enable_oidc_refresh_lock: false,
            has_session_delegate: false,
            additional_root_certificates: Vec::new(),
            disable_built_in_root_certificates: false,
            encryption_settings: EncryptionSettings {
                auto_enable_cross_signing: false,
                backup_download_strategy: BackupDownloadStrategy::AfterDecryptionFailure,
                auto_enable_backups: false,
            },
            room_key_recipient_strategy: None,
            decryption_settings: DecryptionSettings {
                sender_device_trust_requirement: TrustRequirement::Untrusted,
            },
            enable_share_history_on_invite: false,
            request_config: None,
            threading_support: ThreadingSupport::Disabled,
        }
    }

    /// The name under which the client takes the locks that several processes
    /// share.
    pub fn cross_process_store_locks_holder_name(self, holder_name: String) -> (r: Self)
        ensures
            r == (ClientBuilder { cross_process_store_locks_holder_name: Some(holder_name), ..self }),
    {
        ClientBuilder { cross_process_store_locks_holder_name: Some(holder_name), ..self }
    }

    /// Only one process at a time refreshes the tokens.
    pub fn enable_oidc_refresh_lock(self) -> (r: Self)
        ensures
            r == (ClientBuilder { enable_oidc_refresh_lock: true, ..self }),
    {
        ClientBuilder { enable_oidc_refresh_lock: true, ..self }
    }

    /// Something keeps the session for the client.
    pub fn set_session_delegate(self) -> (r: Self)
        ensures
            r == (ClientBuilder { has_session_delegate: true, ..self }),
    {
        ClientBuilder { has_session_delegate: true, ..self }
    }

    /// Sets the paths that the client will use to store its data and caches.
    /// Both paths **must** be unique per session as the SDK stores aren't
    /// capable of handling multiple users, however it is valid to use the same
    /// path for both stores on a single session.
    ///
    /// Leaving this unset tells the client to use an in-memory data store.
    pub fn session_paths(self, data_path: String, cache_path: String) -> (r: Self)
        ensures
            r == (ClientBuilder { session_paths: Some(SessionPaths { data_path, cache_path }), ..self }),
    {
        ClientBuilder { session_paths: Some(SessionPaths { data_path, cache_path }), ..self }
    }

    /// Set the passphrase for the stores given to
    /// [`ClientBuilder::session_paths`].
    pub fn session_passphrase(self, passphrase: Option<String>) -> (r: Self)
        ensures
            r == (ClientBuilder { session_passphrase: passphrase, ..self }),
    {
        ClientBuilder { session_passphrase: passphrase, ..self }
    }

    /// Set the pool max size for the SQLite stores given to
    /// [`ClientBuilder::session_paths`].
    pub fn session_pool_max_size(self, pool_max_size: Option<u32>) -> (r: Self)
        ensures
            r == (ClientBuilder {
                session_pool_max_size: match pool_max_size {
                    Some(size) => Some(size as usize),
                    None => None,
                },
                ..self
            }),
    {
        let session_pool_max_size: Option<usize> = match pool_max_size {
            Some(size) => Some(size as usize),
            None => None,
        };
        ClientBuilder { session_pool_max_size, ..self }
    }

    /// Set the cache size for the SQLite stores given to
    /// [`ClientBuilder::session_paths`], in **bytes (!)**.
    pub fn session_cache_size(self, cache_size: Option<u32>) -> (r: Self)
        ensures
            r == (ClientBuilder { session_cache_size: cache_size, ..self }),
    {
        ClientBuilder { session_cache_size: cache_size, ..self }
    }

    /// Set the size limit for the SQLite WAL files of stores given to
    /// [`ClientBuilder::session_paths`], in **bytes (!)**.
    pub fn session_journal_size_limit(self, limit: Option<u32>) -> (r: Self)
        ensures
            r == (ClientBuilder { session_journal_size_limit: limit, ..self }),
    {
        ClientBuilder { session_journal_size_limit: limit, ..self }
    }

    /// Tell the client that the system is memory constrained, like in a push
    /// notification process for example.
    pub fn system_is_memory_constrained(self) -> (r: Self)
        ensures
            r == (ClientBuilder { system_is_memory_constrained: true, ..self }),
    {
        ClientBuilder { system_is_memory_constrained: true, ..self }
    }

    /// The user whose server is asked, where no homeserver is named.
    pub fn username(self, username: String) -> (r: Self)
        ensures
            r == (ClientBuilder { username: Some(username), ..self }),
    {
        ClientBuilder { username: Some(username), ..self }
    }

    /// Names the homeserver by its server name.
    pub fn server_name(self, server_name: String) -> (r: Self)
        ensures
            r == (ClientBuilder { homeserver_cfg: Some(HomeserverConfig::ServerName(server_name)), ..self }),
    {
        ClientBuilder { homeserver_cfg: Some(HomeserverConfig::ServerName(server_name)), ..self }
    }

    /// Names the homeserver by its URL.
    pub fn homeserver_url(self, url: String) -> (r: Self)
        ensures
            r == (ClientBuilder { homeserver_cfg: Some(HomeserverConfig::Url(url)), ..self }),
    {
        ClientBuilder { homeserver_cfg: Some(HomeserverConfig::Url(url)), ..self }
    }

    /// Names the homeserver by its server name or its URL.
    pub fn server_name_or_homeserver_url(self, server_name_or_url: String) -> (r: Self)
        ensures
            r == (ClientBuilder { homeserver_cfg: Some(HomeserverConfig::ServerNameOrUrl(server_name_or_url)), ..self }),
    {
        ClientBuilder { homeserver_cfg: Some(HomeserverConfig::ServerNameOrUrl(server_name_or_url)), ..self }
    }

    /// Which version of sliding sync is used.
    pub fn sliding_sync_version_builder(self, version_builder: SlidingSyncVersionBuilder) -> (r: Self)
        ensures
            r == (ClientBuilder { sliding_sync_version_builder: version_builder, ..self }),
    {
        ClientBuilder { sliding_sync_version_builder: version_builder, ..self }
    }

    /// The client does not refresh its tokens by itself.
    pub fn disable_automatic_token_refresh(self) -> (r: Self)
        ensures
            r == (ClientBuilder { disable_automatic_token_refresh: true, ..self }),
    {
        ClientBuilder { disable_automatic_token_refresh: true, ..self }
    }

    /// Whether the client sets up cross-signing by itself.
    pub fn auto_enable_cross_signing(self, auto_enable_cross_signing: bool) -> (r: Self)
        ensures
            r == (ClientBuilder { encryption_settings: EncryptionSettings { auto_enable_cross_signing, ..self.encryption_settings }, ..self }),
    {
        ClientBuilder { encryption_settings: EncryptionSettings { auto_enable_cross_signing, ..self.encryption_settings }, ..self }
    }

    /// Select a strategy to download room keys from the backup. By default we
    /// download after a decryption failure.
    pub fn backup_download_strategy(self, backup_download_strategy: BackupDownloadStrategy) -> (r: Self)
        ensures
            r == (ClientBuilder { encryption_settings: EncryptionSettings { backup_download_strategy, ..self.encryption_settings }, ..self }),
    {
        ClientBuilder { encryption_settings: EncryptionSettings { backup_download_strategy, ..self.encryption_settings }, ..self }
    }

    /// Automatically create a backup version if no backup exists.
    pub fn auto_enable_backups(self, auto_enable_backups: bool) -> (r: Self)
        ensures
            r == (ClientBuilder { encryption_settings: EncryptionSettings { auto_enable_backups, ..self.encryption_settings }, ..self }),
    {
        ClientBuilder { encryption_settings: EncryptionSettings { auto_enable_backups, ..self.encryption_settings }, ..self }
    }

    /// Set the strategy to be used for picking recipient devices when sending
    /// an encrypted message.
    pub fn room_key_recipient_strategy(self, strategy: CollectStrategy) -> (r: Self)
        ensures
            r == (ClientBuilder { room_key_recipient_strategy: Some(strategy), ..self }),
    {
        ClientBuilder { room_key_recipient_strategy: Some(strategy), ..self }
    }

    /// Set the trust requirement to be used when decrypting events.
    pub fn decryption_settings(self, decryption_settings: DecryptionSettings) -> (r: Self)
        ensures
            r == (ClientBuilder { decryption_settings, ..self }),
    {
        ClientBuilder { decryption_settings, ..self }
    }

    /// Set whether to enable the experimental support for sending and receiving
    /// encrypted room history on invite, per [MSC4268].
    ///
    /// [MSC4268]: https://github.com/matrix-org/matrix-spec-proposals/pull/4268
    pub fn enable_share_history_on_invite(self, enable_share_history_on_invite: bool) -> (r: Self)
        ensures
            r == (ClientBuilder { enable_share_history_on_invite, ..self }),
    {
        ClientBuilder { enable_share_history_on_invite, ..self }
    }

    /// Add a default request config to this client.
    pub fn request_config(self, config: RequestConfig) -> (r: Self)
        ensures
            r == (ClientBuilder { request_config: Some(config), ..self }),
    {
        ClientBuilder { request_config: Some(config), ..self }
    }

    /// The proxy to go through.
    pub fn proxy(self, url: String) -> (r: Self)
        ensures
            r == (ClientBuilder { proxy: Some(url), ..self }),
    {
        ClientBuilder { proxy: Some(url), ..self }
    }

    /// Certificates are not verified.
    pub fn disable_ssl_verification(self) -> (r: Self)
        ensures
            r == (ClientBuilder { disable_ssl_verification: true, ..self }),
    {
        ClientBuilder { disable_ssl_verification: true, ..self }
    }

    /// Root certificates to trust besides the built-in ones.
    pub fn add_root_certificates(self, certificates: Vec<CertificateBytes>) -> (r: Self)
        ensures
            r == (ClientBuilder { additional_root_certificates: certificates, ..self }),
    {
        ClientBuilder { additional_root_certificates: certificates, ..self }
    }

    /// Don't trust any system root certificates, only trust the certificates
    /// provided through
    /// [`add_root_certificates`][ClientBuilder::add_root_certificates].
    pub fn disable_built_in_root_certificates(self) -> (r: Self)
        ensures
            r == (ClientBuilder { disable_built_in_root_certificates: true, ..self }),
    {
        ClientBuilder { disable_built_in_root_certificates: true, ..self }
    }

    /// What the client calls itself.
    pub fn user_agent(self, user_agent: String) -> (r: Self)
        ensures
            r == (ClientBuilder { user_agent: Some(user_agent), ..self }),
    {
        ClientBuilder { user_agent: Some(user_agent), ..self }
    }

    /// Whether the client should support threads client-side or not, and enable
    /// experimental support for MSC4306 (threads subscriptions) or not.
    pub fn threads_enabled(self, enabled: bool, thread_subscriptions: bool) -> (r: Self)
        ensures
            r == (ClientBuilder {
                threading_support: if enabled {
                    ThreadingSupport::Enabled { with_subscriptions: thread_subscriptions }
                } else {
                    ThreadingSupport::Disabled
                },
                ..self
            }),
    {
        let threading_support: ThreadingSupport = if enabled {
            ThreadingSupport::Enabled { with_subscriptions: thread_subscriptions }
        } else {
            ThreadingSupport::Disabled
        };
        ClientBuilder { threading_support, ..self }
    }

    /// What to ask the SDK for.
    pub fn build(self) -> (r: Result<BuildPlan, ClientBuildError>)
        ensures
            match r {
                Ok(plan) => server_choice(self, plan.server) && plan_matches(self, plan),
                Err(error) => server_refusal(self) matches Some(message) && error matches
                    ClientBuildError::Generic { message: text } && text@ == message,
            },
            r is Ok <==> server_refusal(self) is None,
    {
        let store: Option<StorePlan> = match self.session_paths {
            Some(paths) => Some(
                StorePlan {
                    data_path: paths.data_path,
                    cache_path: paths.cache_path,
                    low_memory: self.system_is_memory_constrained,
                    passphrase: self.session_passphrase,
                    pool_max_size: self.session_pool_max_size,
                    cache_size: self.session_cache_size,
                    journal_size_limit: self.session_journal_size_limit,
                },
            ),
            None => None,
        };
        let server: HomeserverConfig = match self.homeserver_cfg {
            Some(HomeserverConfig::Url(url)) => HomeserverConfig::Url(url),
            Some(HomeserverConfig::ServerName(server_name)) => {
                match parse_server_name(server_name.as_str()) {
                    Ok(()) => HomeserverConfig::ServerName(server_name),
                    Err(error) => {
                        return Err(ClientBuildError::Generic { message: error.message });
                    },
                }
            },
            Some(HomeserverConfig::ServerNameOrUrl(server_name_or_url)) => {
                HomeserverConfig::ServerNameOrUrl(server_name_or_url)
            },
            None => match self.username {
                Some(username) => {
                    match parse_user_server_name(username.as_str()) {
                        Ok(server_name) => HomeserverConfig::ServerName(server_name),
                        Err(error) => {
                            return Err(ClientBuildError::Generic { message: error.message });
                        },
                    }
                },
                None => {
                    return Err(ClientBuildError::Generic { message: NO_SERVER.to_owned() });
                },
            },
        };
        let request_config: Option<RequestPlan> = match self.request_config {
            Some(config) => Some(config.plan()),
            None => None,
        };
        Ok(
            BuildPlan {
                cross_process_store_locks_holder_name: self.cross_process_store_locks_holder_name,
                store,
                server,
                root_certificates: self.additional_root_certificates,
                disable_built_in_root_certificates: self.disable_built_in_root_certificates,
                proxy: self.proxy,
                disable_ssl_verification: self.disable_ssl_verification,
                user_agent: self.user_agent,
                handle_refresh_tokens: !self.disable_automatic_token_refresh,
                encryption_settings: self.encryption_settings,
                room_key_recipient_strategy: self.room_key_recipient_strategy,
                decryption_settings: self.decryption_settings,
                enable_share_history_on_invite: self.enable_share_history_on_invite,
                sliding_sync_version_builder: self.sliding_sync_version_builder,
                request_config,
                threading_support: self.threading_support,
                enable_oidc_refresh_lock: self.enable_oidc_refresh_lock,
                has_session_delegate: self.has_session_delegate,
            },
        )
    }
}

/// What is said where nothing tells which homeserver to use.
pub const NO_SERVER: &'static str =
    "Failed to build: One of homeserver_url, server_name, server_name_or_homeserver_url or username must be called.";

/// Where a client keeps its data.
pub struct StorePlan {
    /// Where both the state store and the crypto store will live.
    pub data_path: String,
    /// Where the event cache store will live.
    pub cache_path: String,
    /// Whether to begin with the settings for little memory.
    pub low_memory: bool,
    pub passphrase: Option<String>,
    pub pool_max_size: Option<usize>,
    pub cache_size: Option<u32>,
    pub journal_size_limit: Option<u32>,
}

/// How requests are made. What is missing stays as the SDK does it by default.
pub struct RequestPlan {
    pub retry_limit: Option<usize>,
    /// In milliseconds.
    pub timeout: Option<u64>,
    /// In seconds.
    pub read_timeout: u64,
    pub max_concurrent_requests: Option<usize>,
    /// In milliseconds.
    pub max_retry_time: Option<u64>,
}

/// What the SDK is asked for.
pub struct BuildPlan {
    pub cross_process_store_locks_holder_name: Option<String>,
    /// None to keep everything in memory.
    pub store: Option<StorePlan>,
    pub server: HomeserverConfig,
    pub root_certificates: Vec<CertificateBytes>,
    pub disable_built_in_root_certificates: bool,
    pub proxy: Option<String>,
    pub disable_ssl_verification: bool,
    pub user_agent: Option<String>,
    pub handle_refresh_tokens: bool,
    pub encryption_settings: EncryptionSettings,
    pub room_key_recipient_strategy: Option<CollectStrategy>,
    pub decryption_settings: DecryptionSettings,
    pub enable_share_history_on_invite: bool,
    pub sliding_sync_version_builder: SlidingSyncVersionBuilder,
    pub request_config: Option<RequestPlan>,
    pub threading_support: ThreadingSupport,
    pub enable_oidc_refresh_lock: bool,
    pub has_session_delegate: bool,
}

/// A number of retries, as far as a `usize` goes.
pub open spec fn retries(limit: u64) -> usize {
    if limit <= usize::MAX {
        limit as usize
    } else {
        usize::MAX
    }
}

/// How requests are made with the given config.
pub open spec fn request_plan(config: RequestConfig) -> RequestPlan {
    RequestPlan {
        retry_limit: match config.retry_limit {
            Some(limit) => Some(retries(limit)),
            None => None,
        },
        timeout: config.timeout,
        read_timeout: DEFAULT_READ_TIMEOUT,
        max_concurrent_requests: match config.max_concurrent_requests {
            Some(max) => if max as usize > 0 {
                Some(max as usize)
            } else {
                None
            },
            None => None,
        },
        max_retry_time: config.max_retry_time,
    }
}

impl RequestConfig {
    /// How requests are made with this config.
    pub fn plan(&self) -> (r: RequestPlan)
        ensures
            r == request_plan(*self),
    {
        let retry_limit: Option<usize> = match self.retry_limit {
            Some(limit) => {
                if limit <= usize::MAX as u64 {
                    Some(limit as usize)
                } else {
                    Some(usize::MAX)
                }
            },
            None => None,
        };
        let max_concurrent_requests: Option<usize> = match self.max_concurrent_requests {
            Some(max) => {
                let max: usize = #[verifier::truncate] (max as usize);
                if max > 0 {
                    Some(max)
                } else {
                    None
                }
            },
            None => None,
        };
        RequestPlan {
            retry_limit,
            timeout: self.timeout,
            read_timeout: DEFAULT_READ_TIMEOUT,
            max_concurrent_requests,
            max_retry_time: self.max_retry_time,
        }
    }
}

/// Why the homeserver cannot be told, if it cannot.
pub open spec fn server_refusal(builder: ClientBuilder) -> Option<Seq<char>> {
    match builder.homeserver_cfg {
        Some(HomeserverConfig::ServerName(server_name)) => {
            match server_name_refusal(server_name@) {
                Some((message, _)) => Some(message),
                None => None,
            }
        },
        Some(_) => None,
        None => match builder.username {
            Some(username) => match user_id_refusal(username@) {
                Some((message, _)) => Some(message),
                None => None,
            },
            None => Some(NO_SERVER@),
        },
    }
}

/// Which homeserver is used: the one that was named, or else the user's.
pub open spec fn server_choice(builder: ClientBuilder, server: HomeserverConfig) -> bool {
    match builder.homeserver_cfg {
        Some(named) => server == named,
        None => {
            &&& builder.username is Some
            &&& server matches HomeserverConfig::ServerName(name)
            &&& split_once_spec((builder.username->0)@, ":"@) matches Some((_, after))
            &&& name@ == after
        },
    }
}

/// Whether the plan asks for what the options say.
pub open spec fn plan_matches(builder: ClientBuilder, plan: BuildPlan) -> bool {
    &&& plan.cross_process_store_locks_holder_name == builder.cross_process_store_locks_holder_name
    &&& plan.store == match builder.session_paths {
        Some(paths) => Some(
            StorePlan {
                data_path: paths.data_path,
                cache_path: paths.cache_path,
                low_memory: builder.system_is_memory_constrained,
                passphrase: builder.session_passphrase,
                pool_max_size: builder.session_pool_max_size,
                cache_size: builder.session_cache_size,
                journal_size_limit: builder.session_journal_size_limit,
            },
        ),
        None => None,
    }
    &&& plan.root_certificates == builder.additional_root_certificates
    &&& plan.disable_built_in_root_certificates == builder.disable_built_in_root_certificates
    &&& plan.proxy == builder.proxy
    &&& plan.disable_ssl_verification == builder.disable_ssl_verification
    &&& plan.user_agent == builder.user_agent
    &&& plan.handle_refresh_tokens == !builder.disable_automatic_token_refresh
    &&& plan.encryption_settings == builder.encryption_settings
    &&& plan.room_key_recipient_strategy == builder.room_key_recipient_strategy
    &&& plan.decryption_settings == builder.decryption_settings
    &&& plan.enable_share_history_on_invite == builder.enable_share_history_on_invite
    &&& plan.sliding_sync_version_builder == builder.sliding_sync_version_builder
    &&& plan.request_config == match builder.request_config {
        Some(config) => Some(request_plan(config)),
        None => None,
    }
    &&& plan.threading_support == builder.threading_support
    &&& plan.enable_oidc_refresh_lock == builder.enable_oidc_refresh_lock
    &&& plan.has_session_delegate == builder.has_session_delegate
}

/// What reading a certificate in its two forms gave. The second form is only
/// tried where the first was refused.
pub struct CertificateReading {
    /// The debug text of the refusal as DER, if it was refused.
    pub der_error: Option<String>,
    /// The debug text of the refusal as PEM, if it was refused.
    pub pem_error: Option<String>,
}

/// The form of a certificate.
#[derive(Clone, Copy, Debug, PartialEq, Eq, Structural)]
pub enum CertificateForm {
    Der,
    Pem,
}

/// The form of a certificate, if it has one.
pub open spec fn form_of(reading: CertificateReading) -> Option<CertificateForm> {
    if reading.der_error is None {
        Some(CertificateForm::Der)
    } else if reading.pem_error is None {
        Some(CertificateForm::Pem)
    } else {
        None
    }
}

/// The first certificate that has no form.
pub open spec fn first_unreadable(readings: Seq<CertificateReading>, i: int) -> bool {
    &&& 0 <= i < readings.len()
    &&& form_of(readings[i]) is None
    &&& forall|j: int| 0 <= j < i ==> form_of(#[trigger] readings[j]) is Some
}

/// The forms of the certificates: DER where that can be read, else PEM. The
/// first that can be read as neither is reported.
pub fn certificate_forms(readings: &Vec<CertificateReading>) -> (r: Result<
    Vec<CertificateForm>,
    ClientBuildError,
>)
    ensures
        match r {
            Ok(forms) => {
                &&& forms@.len() == readings@.len()
                &&& forall|i: int|
                    0 <= i < forms@.len() ==> form_of(readings@[i]) == Some(#[trigger] forms@[i])
            },
            Err(error) => exists|i: int| #[trigger]
                first_unreadable(readings@, i) && (error matches ClientBuildError::Generic {
                    message,
                } && message@ == "Failed to add a root certificate as DER ("@ + (
                readings@[i].der_error->0)@ + ") or PEM ("@ + (readings@[i].pem_error->0)@ + ")"@),
        },
{
    let mut forms: Vec<CertificateForm> = Vec::new();
    let mut i: usize = 0;
    while i < readings.len()
        invariant
            i <= readings.len(),
            forms@.len() == i,
            forall|j: int|
                0 <= j < i ==> form_of(#[trigger] readings@[j]) == Some(forms@[j]),
        decreases readings.len() - i,
    {
        match &readings[i].der_error {
            None => forms.push(CertificateForm::Der),
            Some(der_error) => match &readings[i].pem_error {
                None => forms.push(CertificateForm::Pem),
                Some(pem_error) => {
                    let der: String = concat3(
                        "Failed to add a root certificate as DER (",
                        der_error.as_str(),
                        ") or PEM (",
                    );
                    let message: String = concat3(der.as_str(), pem_error.as_str(), ")");
                    assert(first_unreadable(readings@, i as int));
                    return Err(ClientBuildError::Generic { message });
                },
            },
        }
        i = i + 1;
    }
    Ok(forms)
}

/// A homeserver that was named is the one that counts, whatever the user's name is
/// and whatever was named before.
pub proof fn named_server_wins(
    builder: ClientBuilder,
    other: ClientBuilder,
    named: HomeserverConfig,
    server: HomeserverConfig,
)
    ensures
        ({
            let a = ClientBuilder { homeserver_cfg: Some(named), ..builder };
            let b = ClientBuilder { homeserver_cfg: Some(named), ..other };
            &&& server_choice(a, server) <==> server == named
            &&& server_refusal(a) == server_refusal(b)
            &&& named is ServerName || server_refusal(a) is None
        }),
{
}

/// The name under which locks are taken reaches the plan, and nothing else of the plan changes.
pub proof fn cross_process_store_locks_holder_name_reaches_the_plan(
    builder: ClientBuilder,
    value: String,
    set: ClientBuilder,
    before: BuildPlan,
    after: BuildPlan,
)
    requires
        call_ensures(ClientBuilder::cross_process_store_locks_holder_name, (builder, value), set),
        call_ensures(ClientBuilder::build, (builder,), Ok::<BuildPlan, ClientBuildError>(before)),
        call_ensures(ClientBuilder::build, (set,), Ok::<BuildPlan, ClientBuildError>(after)),
        builder.homeserver_cfg is Some,
    ensures
        after == (BuildPlan {
            cross_process_store_locks_holder_name: Some(value),
            ..before
        }),
{
}

/// The lock on refreshing tokens reaches the plan, and nothing else of the plan changes.
pub proof fn enable_oidc_refresh_lock_reaches_the_plan(
    builder: ClientBuilder,
    set: ClientBuilder,
    before: BuildPlan,
    after: BuildPlan,
)
    requires
        call_ensures(ClientBuilder::enable_oidc_refresh_lock, (builder,), set),
        call_ensures(ClientBuilder::build, (builder,), Ok::<BuildPlan, ClientBuildError>(before)),
        call_ensures(ClientBuilder::build, (set,), Ok::<BuildPlan, ClientBuildError>(after)),
        builder.homeserver_cfg is Some,
    ensures
        after == (BuildPlan {
            enable_oidc_refresh_lock: true,
            ..before
        }),
{
}

/// What keeps the session reaches the plan, and nothing else of the plan changes.
pub proof fn set_session_delegate_reaches_the_plan(
    builder: ClientBuilder,
    set: ClientBuilder,
    before: BuildPlan,
    after: BuildPlan,
)
    requires
        call_ensures(ClientBuilder::set_session_delegate, (builder,), set),
        call_ensures(ClientBuilder::build, (builder,), Ok::<BuildPlan, ClientBuildError>(before)),
        call_ensures(ClientBuilder::build, (set,), Ok::<BuildPlan, ClientBuildError>(after)),
        builder.homeserver_cfg is Some,
    ensures
        after == (BuildPlan {
            has_session_delegate: true,
            ..before
        }),
{
}

/// The version of sliding sync reaches the plan, and nothing else of the plan changes.
pub proof fn sliding_sync_version_builder_reaches_the_plan(
    builder: ClientBuilder,
    value: SlidingSyncVersionBuilder,
    set: ClientBuilder,
    before: BuildPlan,
    after: BuildPlan,
)
    requires
        call_ensures(ClientBuilder::sliding_sync_version_builder, (builder, value), set),
        call_ensures(ClientBuilder::build, (builder,), Ok::<BuildPlan, ClientBuildError>(before)),
        call_ensures(ClientBuilder::build, (set,), Ok::<BuildPlan, ClientBuildError>(after)),
        builder.homeserver_cfg is Some,
    ensures
        after == (BuildPlan {
            sliding_sync_version_builder: value,
            ..before
        }),
{
}

/// That tokens are not refreshed reaches the plan, and nothing else of the plan changes.
pub proof fn disable_automatic_token_refresh_reaches_the_plan(
    builder: ClientBuilder,
    set: ClientBuilder,
    before: BuildPlan,
    after: BuildPlan,
)
    requires
        call_ensures(ClientBuilder::disable_automatic_token_refresh, (builder,), set),
        call_ensures(ClientBuilder::build, (builder,), Ok::<BuildPlan, ClientBuildError>(before)),
        call_ensures(ClientBuilder::build, (set,), Ok::<BuildPlan, ClientBuildError>(after)),
        builder.homeserver_cfg is Some,
    ensures
        after == (BuildPlan {
            handle_refresh_tokens: false,
            ..before
        }),
{
}

/// Whether cross-signing is set up reaches the plan, and nothing else of the plan changes.
pub proof fn auto_enable_cross_signing_reaches_the_plan(
    builder: ClientBuilder,
    value: bool,
    set: ClientBuilder,
    before: BuildPlan,
    after: BuildPlan,
)
    requires
        call_ensures(ClientBuilder::auto_enable_cross_signing, (builder, value), set),
        call_ensures(ClientBuilder::build, (builder,), Ok::<BuildPlan, ClientBuildError>(before)),
        call_ensures(ClientBuilder::build, (set,), Ok::<BuildPlan, ClientBuildError>(after)),
        builder.homeserver_cfg is Some,
    ensures
        after == (BuildPlan {
            encryption_settings: EncryptionSettings {
                auto_enable_cross_signing: value,
                ..before.encryption_settings
            },
            ..before
        }),
{
}

/// When keys are fetched reaches the plan, and nothing else of the plan changes.
pub proof fn backup_download_strategy_reaches_the_plan(
    builder: ClientBuilder,
    value: BackupDownloadStrategy,
    set: ClientBuilder,
    before: BuildPlan,
    after: BuildPlan,
)
    requires
        call_ensures(ClientBuilder::backup_download_strategy, (builder, value), set),
        call_ensures(ClientBuilder::build, (builder,), Ok::<BuildPlan, ClientBuildError>(before)),
        call_ensures(ClientBuilder::build, (set,), Ok::<BuildPlan, ClientBuildError>(after)),
        builder.homeserver_cfg is Some,
    ensures
        after == (BuildPlan {
            encryption_settings: EncryptionSettings {
                backup_download_strategy: value,
                ..before.encryption_settings
            },
            ..before
        }),
{
}

/// Whether backups are set up reaches the plan, and nothing else of the plan changes.
pub proof fn auto_enable_backups_reaches_the_plan(
    builder: ClientBuilder,
    value: bool,
    set: ClientBuilder,
    before: BuildPlan,
    after: BuildPlan,
)
    requires
        call_ensures(ClientBuilder::auto_enable_backups, (builder, value), set),
        call_ensures(ClientBuilder::build, (builder,), Ok::<BuildPlan, ClientBuildError>(before)),
        call_ensures(ClientBuilder::build, (set,), Ok::<BuildPlan, ClientBuildError>(after)),
        builder.homeserver_cfg is Some,
    ensures
        after == (BuildPlan {
            encryption_settings: EncryptionSettings {
                auto_enable_backups: value,
                ..before.encryption_settings
            },
            ..before
        }),
{
}

/// Which devices get keys reaches the plan, and nothing else of the plan changes.
pub proof fn room_key_recipient_strategy_reaches_the_plan(
    builder: ClientBuilder,
    value: CollectStrategy,
    set: ClientBuilder,
    before: BuildPlan,
    after: BuildPlan,
)
    requires
        call_ensures(ClientBuilder::room_key_recipient_strategy, (builder, value), set),
        call_ensures(ClientBuilder::build, (builder,), Ok::<BuildPlan, ClientBuildError>(before)),
        call_ensures(ClientBuilder::build, (set,), Ok::<BuildPlan, ClientBuildError>(after)),
        builder.homeserver_cfg is Some,
    ensures
        after == (BuildPlan {
            room_key_recipient_strategy: Some(value),
            ..before
        }),
{
}

/// How messages are decrypted reaches the plan, and nothing else of the plan changes.
pub proof fn decryption_settings_reaches_the_plan(
    builder: ClientBuilder,
    value: DecryptionSettings,
    set: ClientBuilder,
    before: BuildPlan,
    after: BuildPlan,
)
    requires
        call_ensures(ClientBuilder::decryption_settings, (builder, value), set),
        call_ensures(ClientBuilder::build, (builder,), Ok::<BuildPlan, ClientBuildError>(before)),
        call_ensures(ClientBuilder::build, (set,), Ok::<BuildPlan, ClientBuildError>(after)),
        builder.homeserver_cfg is Some,
    ensures
        after == (BuildPlan {
            decryption_settings: value,
            ..before
        }),
{
}

/// Whether history is shared reaches the plan, and nothing else of the plan changes.
pub proof fn enable_share_history_on_invite_reaches_the_plan(
    builder: ClientBuilder,
    value: bool,
    set: ClientBuilder,
    before: BuildPlan,
    after: BuildPlan,
)
    requires
        call_ensures(ClientBuilder::enable_share_history_on_invite, (builder, value), set),
        call_ensures(ClientBuilder::build, (builder,), Ok::<BuildPlan, ClientBuildError>(before)),
        call_ensures(ClientBuilder::build, (set,), Ok::<BuildPlan, ClientBuildError>(after)),
        builder.homeserver_cfg is Some,
    ensures
        after == (BuildPlan {
            enable_share_history_on_invite: value,
            ..before
        }),
{
}

/// The proxy reaches the plan, and nothing else of the plan changes.
pub proof fn proxy_reaches_the_plan(
    builder: ClientBuilder,
    value: String,
    set: ClientBuilder,
    before: BuildPlan,
    after: BuildPlan,
)
    requires
        call_ensures(ClientBuilder::proxy, (builder, value), set),
        call_ensures(ClientBuilder::build, (builder,), Ok::<BuildPlan, ClientBuildError>(before)),
        call_ensures(ClientBuilder::build, (set,), Ok::<BuildPlan, ClientBuildError>(after)),
        builder.homeserver_cfg is Some,
    ensures
        after == (BuildPlan {
            proxy: Some(value),
            ..before
        }),
{
}

/// That certificates are not verified reaches the plan, and nothing else of the plan changes.
pub proof fn disable_ssl_verification_reaches_the_plan(
    builder: ClientBuilder,
    set: ClientBuilder,
    before: BuildPlan,
    after: BuildPlan,
)
    requires
        call_ensures(ClientBuilder::disable_ssl_verification, (builder,), set),
        call_ensures(ClientBuilder::build, (builder,), Ok::<BuildPlan, ClientBuildError>(before)),
        call_ensures(ClientBuilder::build, (set,), Ok::<BuildPlan, ClientBuildError>(after)),
        builder.homeserver_cfg is Some,
    ensures
        after == (BuildPlan {
            disable_ssl_verification: true,
            ..before
        }),
{
}

/// The certificates reach the plan, and nothing else of the plan changes.
pub proof fn add_root_certificates_reaches_the_plan(
    builder: ClientBuilder,
    value: Vec<CertificateBytes>,
    set: ClientBuilder,
    before: BuildPlan,
    after: BuildPlan,
)
    requires
        call_ensures(ClientBuilder::add_root_certificates, (builder, value), set),
        call_ensures(ClientBuilder::build, (builder,), Ok::<BuildPlan, ClientBuildError>(before)),
        call_ensures(ClientBuilder::build, (set,), Ok::<BuildPlan, ClientBuildError>(after)),
        builder.homeserver_cfg is Some,
    ensures
        after == (BuildPlan {
            root_certificates: value,
            ..before
        }),
{
}

/// That only the given certificates are trusted reaches the plan, and nothing else of the plan changes.
pub proof fn disable_built_in_root_certificates_reaches_the_plan(
    builder: ClientBuilder,
    set: ClientBuilder,
    before: BuildPlan,
    after: BuildPlan,
)
    requires
        call_ensures(ClientBuilder::disable_built_in_root_certificates, (builder,), set),
        call_ensures(ClientBuilder::build, (builder,), Ok::<BuildPlan, ClientBuildError>(before)),
        call_ensures(ClientBuilder::build, (set,), Ok::<BuildPlan, ClientBuildError>(after)),
        builder.homeserver_cfg is Some,
    ensures
        after == (BuildPlan {
            disable_built_in_root_certificates: true,
            ..before
        }),
{
}

/// What the client calls itself reaches the plan, and nothing else of the plan changes.
pub proof fn user_agent_reaches_the_plan(
    builder: ClientBuilder,
    value: String,
    set: ClientBuilder,
    before: BuildPlan,
    after: BuildPlan,
)
    requires
        call_ensures(ClientBuilder::user_agent, (builder, value), set),
        call_ensures(ClientBuilder::build, (builder,), Ok::<BuildPlan, ClientBuildError>(before)),
        call_ensures(ClientBuilder::build, (set,), Ok::<BuildPlan, ClientBuildError>(after)),
        builder.homeserver_cfg is Some,
    ensures
        after == (BuildPlan {
            user_agent: Some(value),
            ..before
        }),
{
}

/// Whether threads are known of, and subscribed to, reaches the plan, and nothing else
/// of the plan changes.
pub proof fn threads_enabled_reaches_the_plan(
    builder: ClientBuilder,
    enabled: bool,
    thread_subscriptions: bool,
    set: ClientBuilder,
    before: BuildPlan,
    after: BuildPlan,
)
    requires
        call_ensures(ClientBuilder::threads_enabled, (builder, enabled, thread_subscriptions), set),
        call_ensures(ClientBuilder::build, (builder,), Ok::<BuildPlan, ClientBuildError>(before)),
        call_ensures(ClientBuilder::build, (set,), Ok::<BuildPlan, ClientBuildError>(after)),
        builder.homeserver_cfg is Some,
    ensures
        after == (BuildPlan { threading_support: after.threading_support, ..before }),
        after.threading_support is Enabled <==> enabled,
        enabled ==> after.threading_support->with_subscriptions == thread_subscriptions,
{
}

/// The limits on requests reach the plan as far as they fit; without a limit on
/// concurrent requests, or with one of none, there is none. Nothing else changes.
pub proof fn request_config_reaches_the_plan(
    builder: ClientBuilder,
    value: RequestConfig,
    set: ClientBuilder,
    before: BuildPlan,
    after: BuildPlan,
)
    requires
        call_ensures(ClientBuilder::request_config, (builder, value), set),
        call_ensures(ClientBuilder::build, (builder,), Ok::<BuildPlan, ClientBuildError>(before)),
        call_ensures(ClientBuilder::build, (set,), Ok::<BuildPlan, ClientBuildError>(after)),
        builder.homeserver_cfg is Some,
    ensures
        after == (BuildPlan { request_config: after.request_config, ..before }),
        after.request_config matches Some(plan) && {
            &&& plan.timeout == value.timeout
            &&& plan.max_retry_time == value.max_retry_time
            &&& plan.read_timeout == 60
            &&& plan.retry_limit is Some <==> value.retry_limit is Some
            &&& value.retry_limit matches Some(limit) ==> {
                &&& plan.retry_limit->0 <= limit
                &&& plan.retry_limit->0 == limit || (plan.retry_limit->0 == usize::MAX && limit
                    > usize::MAX)
            }
            &&& value.max_concurrent_requests is None ==> plan.max_concurrent_requests is None
            &&& value.max_concurrent_requests matches Some(max) ==> (max <= usize::MAX ==> {
                &&& plan.max_concurrent_requests is Some <==> max > 0
                &&& max > 0 ==> plan.max_concurrent_requests->0 == max
            })
        },
{
}

/// The options of the stores, each with its own value, reach the plan once there are
/// paths; and without paths everything is kept in memory.
pub proof fn store_options_reach_the_plan(
    builders: (ClientBuilder, ClientBuilder, ClientBuilder, ClientBuilder, ClientBuilder, ClientBuilder),
    data_path: String,
    cache_path: String,
    passphrase: Option<String>,
    pool_max_size: Option<u32>,
    cache_size: Option<u32>,
    journal_size_limit: Option<u32>,
    set: ClientBuilder,
    built: Result<BuildPlan, ClientBuildError>,
)
    requires
        call_ensures(
            ClientBuilder::session_passphrase,
            (builders.0, passphrase),
            builders.1,
        ),
        call_ensures(
            ClientBuilder::session_pool_max_size,
            (builders.1, pool_max_size),
            builders.2,
        ),
        call_ensures(ClientBuilder::session_cache_size, (builders.2, cache_size), builders.3),
        call_ensures(
            ClientBuilder::session_journal_size_limit,
            (builders.3, journal_size_limit),
            builders.4,
        ),
        call_ensures(ClientBuilder::system_is_memory_constrained, (builders.4,), builders.5),
        call_ensures(ClientBuilder::session_paths, (builders.5, data_path, cache_path), set),
        call_ensures(ClientBuilder::build, (set,), built),
    ensures
        built matches Ok(plan) ==> (plan.store matches Some(store) && {
            &&& store.data_path == data_path
            &&& store.cache_path == cache_path
            &&& store.passphrase == passphrase
            &&& store.pool_max_size is Some <==> pool_max_size is Some
            &&& pool_max_size is Some ==> store.pool_max_size->0 == pool_max_size->0
            &&& store.cache_size == cache_size
            &&& store.journal_size_limit == journal_size_limit
            &&& store.low_memory
        }),
{
}

/// Little memory is only reckoned with where that was asked for, and without paths
/// there is no store.
pub proof fn stores_are_as_asked_for(builder: ClientBuilder, plan: BuildPlan)
    requires
        call_ensures(ClientBuilder::build, (builder,), Ok::<BuildPlan, ClientBuildError>(plan)),
    ensures
        plan.store is Some <==> builder.session_paths is Some,
        plan.store matches Some(store) ==> store.low_memory
            == builder.system_is_memory_constrained,
{
}

/// A homeserver that is named by a URL, or by either, is the one that is used; one that
/// is named by its server name is if that is a server name, and is refused with what is
/// wrong with it otherwise. What is named last counts.
pub proof fn the_named_homeserver_is_used(
    builder: ClientBuilder,
    name: String,
    by_url: ClientBuilder,
    by_name: ClientBuilder,
    by_either: ClientBuilder,
    results: (
        Result<BuildPlan, ClientBuildError>,
        Result<BuildPlan, ClientBuildError>,
        Result<BuildPlan, ClientBuildError>,
    ),
)
    requires
        call_ensures(ClientBuilder::homeserver_url, (builder, name), by_url),
        call_ensures(ClientBuilder::server_name, (builder, name), by_name),
        call_ensures(ClientBuilder::server_name_or_homeserver_url, (builder, name), by_either),
        call_ensures(ClientBuilder::build, (by_url,), results.0),
        call_ensures(ClientBuilder::build, (by_name,), results.1),
        call_ensures(ClientBuilder::build, (by_either,), results.2),
    ensures
        results.0 matches Ok(plan) && plan.server == HomeserverConfig::Url(name),
        results.2 matches Ok(plan) && plan.server == HomeserverConfig::ServerNameOrUrl(name),
        server_name_refusal(name@) is None ==> (results.1 matches Ok(plan) && plan.server
            == HomeserverConfig::ServerName(name)),
        server_name_refusal(name@) matches Some(texts) ==> (results.1 matches Err(
            ClientBuildError::Generic { message },
        ) && message@ == texts.0),
{
}

/// Where only the user is known, the homeserver is the one in the user's ID: what stands
/// behind the first colon. A user without an ID is refused, and so is a client of which
/// neither is known.
pub proof fn the_users_homeserver_is_used_otherwise(
    builder: ClientBuilder,
    username: String,
    set: ClientBuilder,
    result: Result<BuildPlan, ClientBuildError>,
    nothing: Result<BuildPlan, ClientBuildError>,
)
    requires
        builder.homeserver_cfg is None,
        builder.username is None,
        call_ensures(ClientBuilder::username, (builder, username), set),
        call_ensures(ClientBuilder::build, (set,), result),
        call_ensures(ClientBuilder::build, (builder,), nothing),
    ensures
        nothing is Err,
        result is Ok <==> user_id_refusal(username@) is None,
        result matches Ok(plan) ==> (plan.server matches HomeserverConfig::ServerName(name)
            && exists|local: Seq<char>| #[trigger]
            (local + ":"@ + name@) == username@ && !local.contains(':')),
{
    if result is Ok {
        reveal_strlit(":");
        assert(":"@ =~= seq![':']);
        crate::text::cut_texts_can_be_joined(username@, ':');
        let parts = split_once_spec(username@, ":"@)->0;
        assert(parts.0 + ":"@ + parts.1 == username@);
    }
}

/// A client of which nothing is asked but the homeserver verifies certificates, trusts
/// the built-in ones, refreshes its tokens, keeps everything in memory, uses no sliding
/// sync, no threads, no proxy and no name of its own, and leaves the rest to the SDK.
pub proof fn a_new_client_is_plain(
    new: ClientBuilder,
    url: String,
    set: ClientBuilder,
    plan: BuildPlan,
)
    requires
        call_ensures(ClientBuilder::new, (), new),
        call_ensures(ClientBuilder::homeserver_url, (new, url), set),
        call_ensures(ClientBuilder::build, (set,), Ok::<BuildPlan, ClientBuildError>(plan)),
    ensures
        !plan.disable_ssl_verification && !plan.disable_built_in_root_certificates,
        plan.root_certificates@.len() == 0,
        plan.handle_refresh_tokens && !plan.enable_oidc_refresh_lock && !plan.has_session_delegate,
        plan.store is None && plan.cross_process_store_locks_holder_name is None,
        plan.sliding_sync_version_builder is NoVersion && plan.threading_support is Disabled,
        plan.proxy is None && plan.user_agent is None && plan.request_config is None,
        !plan.encryption_settings.auto_enable_cross_signing,
        !plan.encryption_settings.auto_enable_backups,
        plan.encryption_settings.backup_download_strategy is AfterDecryptionFailure,
        plan.decryption_settings.sender_device_trust_requirement is Untrusted,
        plan.room_key_recipient_strategy is None && !plan.enable_share_history_on_invite,
{
}

/// Every certificate of a list that is accepted can be read in the form that it is given,
/// DER before PEM; and a list is refused only for one that can be read as neither.
pub proof fn certificates_are_read_in_their_form(
    readings: Vec<CertificateReading>,
    result: Result<Vec<CertificateForm>, ClientBuildError>,
    i: int,
)
    requires
        call_ensures(certificate_forms, (&readings,), result),
        0 <= i < readings@.len(),
    ensures
        result is Ok <==> forall|j: int|
            0 <= j < readings@.len() ==> (#[trigger] readings@[j]).der_error is None
                || readings@[j].pem_error is None,
        result matches Ok(forms) ==> forms@.len() == readings@.len() && (forms@[i] is Der
            <==> readings@[i].der_error is None),
{
    if result is Err {
        let j = choose|j: int| #[trigger] first_unreadable(readings@, j);
        assert(readings@[j].der_error is Some && readings@[j].pem_error is Some);
    } else {
        let forms = result->Ok_0@;
        assert forall|j: int| 0 <= j < readings@.len() implies (#[trigger] readings@[j]).der_error is None
            || readings@[j].pem_error is None by {
            assert(form_of(readings@[j]) == Some(forms[j]));
        }
        assert(form_of(readings@[i]) == Some(forms[i]));
    }
}

/// What kept a client from being built is told by what it was, with its text.
pub proof fn build_errors_are_told(message: String)
    ensures
        <ClientBuildError as vstd::std_specs::convert::FromSpec<SdkClientBuildError>>::from_spec(
            SdkClientBuildError::InvalidServerName,
        ) is InvalidServerName,
        <ClientBuildError as vstd::std_specs::convert::FromSpec<SdkClientBuildError>>::from_spec(
            SdkClientBuildError::Http { message },
        ) == (ClientBuildError::ServerUnreachable { message }),
        <ClientBuildError as vstd::std_specs::convert::FromSpec<SdkClientBuildError>>::from_spec(
            SdkClientBuildError::AutoDiscoveryServer { message },
        ) == (ClientBuildError::WellKnownLookupFailed { message }),
        <ClientBuildError as vstd::std_specs::convert::FromSpec<SdkClientBuildError>>::from_spec(
            SdkClientBuildError::AutoDiscoveryDeserialization { message },
        ) == (ClientBuildError::WellKnownDeserializationError { message }),
        <ClientBuildError as vstd::std_specs::convert::FromSpec<SdkClientBuildError>>::from_spec(
            SdkClientBuildError::SlidingSyncVersion { message },
        ) == (ClientBuildError::SlidingSyncVersion { message }),
        <ClientBuildError as vstd::std_specs::convert::FromSpec<SdkClientBuildError>>::from_spec(
            SdkClientBuildError::Other { message },
        ) == (ClientBuildError::Sdk { message }),
{
}

} // verus!
