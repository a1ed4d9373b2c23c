//! Backups of room keys, recovery and verification.

use vstd::prelude::*;

use crate::error::ClientError;
use crate::text::concat2;

verus! {

/// Told of the state of the backup.
pub trait BackupStateListener {
    fn on_update(&self, status: BackupState);
}

/// Told how many room keys were backed up.
pub trait BackupSteadyStateListener {
    fn on_update(&self, status: BackupUploadState);
}

/// Told of the state of recovery.
pub trait RecoveryStateListener {
    fn on_update(&self, status: RecoveryState);
}

/// Told whether the session is verified.
pub trait VerificationStateListener {
    fn on_update(&self, status: VerificationState);
}

/// Told how far the setup of recovery is.
pub trait EnableRecoveryProgressListener {
    fn on_update(&self, status: EnableRecoveryProgress);
}

/// How far a backup of the room keys is.
#[derive(Clone, Copy, Debug, PartialEq, Eq, Structural)]
pub enum BackupUploadState {
    Waiting,
    Uploading { backed_up_count: u32, total_count: u32 },
    Error,
    Done,
}

/// How many room keys there are, and how many of them were backed up.
#[derive(Clone, Copy, Debug, PartialEq, Eq, Structural)]
pub struct RoomKeyCounts {
    pub total: usize,
    pub backed_up: usize,
}

/// How far a backup of the room keys is, as the SDK says it.
#[derive(Clone, Copy, Debug, PartialEq, Eq, Structural)]
pub enum UploadState {
    Idle,
    Uploading(RoomKeyCounts),
    Error,
    Done,
}

/// A count in 32 bits; the largest one stands for all that do not fit.
pub open spec fn capped(count: usize) -> u32 {
    if count <= u32::MAX {
        count as u32
    } else {
        u32::MAX
    }
}

/// A count in 32 bits.
fn cap(count: usize) -> (r: u32)
    ensures
        r == capped(count),
{
    if count <= u32::MAX as usize {
        count as u32
    } else {
        u32::MAX
    }
}

impl BackupUploadState {
    /// How far a backup of the room keys is.
    pub fn from(value: UploadState) -> (r: BackupUploadState)
        ensures
            r == match value {
                UploadState::Idle => BackupUploadState::Waiting,
                UploadState::Uploading(count) => BackupUploadState::Uploading {
                    backed_up_count: capped(count.backed_up),
                    total_count: capped(count.total),
                },
                UploadState::Error => BackupUploadState::Error,
                UploadState::Done => BackupUploadState::Done,
            },
    {
        match value {
            UploadState::Idle => BackupUploadState::Waiting,
            UploadState::Uploading(count) => BackupUploadState::Uploading {
                backed_up_count: cap(count.backed_up),
                total_count: cap(count.total),
            },
            UploadState::Error => BackupUploadState::Error,
            UploadState::Done => BackupUploadState::Done,
        }
    }
}

/// No more keys are said to be backed up than there are.
pub proof fn counts_stay_in_order(counts: RoomKeyCounts)
    requires
        counts.backed_up <= counts.total,
    ensures
        capped(counts.backed_up) <= capped(counts.total),
{
}

/// Why the backup did not come to an end.
#[derive(Clone, Copy, Debug, PartialEq, Eq, Structural)]
pub enum SteadyStateError {
    BackupDisabled,
    Connection,
    Lagged,
}

impl SteadyStateError {
    /// The text of the error.
    pub fn to_string(&self) -> (r: String)
        ensures
            r@ == match *self {
                SteadyStateError::BackupDisabled =>
                    "The backup got disabled while waiting for the room keys to be uploaded."@,
                SteadyStateError::Connection => "There was a connection error."@,
                SteadyStateError::Lagged =>
                    "We couldn't read status updates from the upload task quickly enough."@,
            },
    {
        match self {
            SteadyStateError::BackupDisabled => {
                "The backup got disabled while waiting for the room keys to be uploaded.".to_owned()
            },
            SteadyStateError::Connection => "There was a connection error.".to_owned(),
            SteadyStateError::Lagged => {
                "We couldn't read status updates from the upload task quickly enough.".to_owned()
            },
        }
    }
}

/// An error of recovery.
pub enum RecoveryError {
    /// There is a backup on the homeserver already, and it is not overwritten.
    BackupExistsOnServer,
    /// Any error of the SDK.
    Client { source: ClientError },
    /// An error of the secret storage, but not one of importing a secret.
    SecretStorage { error_message: String },
    /// An error of importing a secret.
    Import { error_message: String },
}

/// An error of recovery, as the SDK has it.
pub enum SdkRecoveryError {
    BackupExistsOnServer,
    Sdk { error: ClientError },
    /// An error of the secret storage, with its text, and with the text of the
    /// whole error.
    SecretStorage { is_import: bool, storage_message: String, message: String },
}

impl RecoveryError {
    /// What an error of the SDK becomes.
    pub fn from(value: SdkRecoveryError) -> (r: RecoveryError)
        ensures
            r == match value {
                SdkRecoveryError::BackupExistsOnServer => RecoveryError::BackupExistsOnServer,
                SdkRecoveryError::Sdk { error } => RecoveryError::Client { source: error },
                SdkRecoveryError::SecretStorage { is_import: true, storage_message, message } =>
                    RecoveryError::Import { error_message: message },
                SdkRecoveryError::SecretStorage { is_import: false, storage_message, message } =>
                    RecoveryError::SecretStorage { error_message: storage_message },
            },
    {
        match value {
            SdkRecoveryError::BackupExistsOnServer => RecoveryError::BackupExistsOnServer,
            SdkRecoveryError::Sdk { error } => RecoveryError::Client { source: error },
            SdkRecoveryError::SecretStorage { is_import, storage_message, message } => {
                if is_import {
                    RecoveryError::Import { error_message: message }
                } else {
                    RecoveryError::SecretStorage { error_message: storage_message }
                }
            },
        }
    }

    /// The text of the error.
    pub fn to_string(&self) -> (r: String)
        ensures
            r@ == match *self {
                RecoveryError::BackupExistsOnServer =>
                    "A backup already exists on the homeserver and the method does not allow to overwrite it"@,
                RecoveryError::Client { source } => match source {
                    ClientError::Generic { msg, .. } => "client error: "@ + msg@,
                    ClientError::MatrixApi { code, msg, .. } => "api error "@ + code@ + ": "@
                        + msg@,
                },
                RecoveryError::SecretStorage { error_message } =>
                    "Error in the secret-storage subsystem: "@ + error_message@,
                RecoveryError::Import { error_message } => "Error importing a secret: "@
                    + error_message@,
            },
    {
        match self {
            RecoveryError::BackupExistsOnServer => {
                "A backup already exists on the homeserver and the method does not allow to overwrite it".to_owned()
            },
            RecoveryError::Client { source } => source.to_string(),
            RecoveryError::SecretStorage { error_message } => {
                concat2("Error in the secret-storage subsystem: ", error_message.as_str())
            },
            RecoveryError::Import { error_message } => {
                concat2("Error importing a secret: ", error_message.as_str())
            },
        }
    }
}

/// The state of the backup.
#[derive(Clone, Copy, Debug, PartialEq, Eq, Structural)]
pub enum BackupState {
    Unknown,
    Creating,
    Enabling,
    Resuming,
    Enabled,
    Downloading,
    Disabling,
}

/// The state of recovery.
#[derive(Clone, Copy, Debug, PartialEq, Eq, Structural)]
pub enum RecoveryState {
    Unknown,
    Enabled,
    Disabled,
    Incomplete,
}

/// How far the setup of recovery is.
pub enum EnableRecoveryProgress {
    Starting,
    CreatingBackup,
    CreatingRecoveryKey,
    BackingUp { backed_up_count: u32, total_count: u32 },
    RoomKeyUploadError,
    Done { recovery_key: String },
}

/// How far the setup of recovery is, as the SDK says it.
pub enum EnableProgress {
    Starting,
    CreatingBackup,
    CreatingRecoveryKey,
    BackingUp(RoomKeyCounts),
    RoomKeyUploadError,
    Done { recovery_key: String },
}

impl EnableRecoveryProgress {
    /// How far the setup of recovery is. Both counts are that of the keys that were
    /// backed up.
    pub fn from(value: EnableProgress) -> (r: EnableRecoveryProgress)
        ensures
            r == match value {
                EnableProgress::Starting => EnableRecoveryProgress::Starting,
                EnableProgress::CreatingBackup => EnableRecoveryProgress::CreatingBackup,
                EnableProgress::CreatingRecoveryKey => EnableRecoveryProgress::CreatingRecoveryKey,
                EnableProgress::BackingUp(counts) => EnableRecoveryProgress::BackingUp {
                    backed_up_count: capped(counts.backed_up),
                    total_count: capped(counts.backed_up),
                },
                EnableProgress::RoomKeyUploadError => EnableRecoveryProgress::RoomKeyUploadError,
                EnableProgress::Done { recovery_key } => EnableRecoveryProgress::Done {
                    recovery_key,
                },
            },
    {
        match value {
            EnableProgress::Starting => EnableRecoveryProgress::Starting,
            EnableProgress::CreatingBackup => EnableRecoveryProgress::CreatingBackup,
            EnableProgress::CreatingRecoveryKey => EnableRecoveryProgress::CreatingRecoveryKey,
            EnableProgress::BackingUp(counts) => EnableRecoveryProgress::BackingUp {
                backed_up_count: cap(counts.backed_up),
                total_count: cap(counts.backed_up),
            },
            EnableProgress::RoomKeyUploadError => EnableRecoveryProgress::RoomKeyUploadError,
            EnableProgress::Done { recovery_key } => EnableRecoveryProgress::Done { recovery_key },
        }
    }
}

/// Whether the session is verified.
#[derive(Clone, Copy, Debug, PartialEq, Eq, Structural)]
pub enum VerificationState {
    Unknown,
    Verified,
    Unverified,
}

/// What the store says of the identity of a user. `I` is the identity and `E` the
/// reason why the store could not be read.
pub enum StoredIdentity<I, E> {
    Found(I),
    NotFound,
    /// The store could not be read.
    Failed(E),
}

/// What to do for the identity of a user.
pub enum IdentityLookup<I> {
    /// This is the identity, if there is one.
    Answer(Option<I>),
    /// The homeserver has to be asked.
    AskServer,
}

/// What to do for the identity of a user: what the store has is the answer, and
/// otherwise the homeserver is asked, if that is wanted. A store that cannot be
/// read is an error, and the homeserver is not asked then.
pub fn identity_lookup<I, E>(stored: StoredIdentity<I, E>, fallback_to_server: bool) -> (r:
    Result<IdentityLookup<I>, E>)
    ensures
        r == match stored {
            StoredIdentity::Found(identity) => Ok::<IdentityLookup<I>, E>(
                IdentityLookup::Answer(Some(identity)),
            ),
            StoredIdentity::NotFound => Ok(
                if fallback_to_server {
                    IdentityLookup::<I>::AskServer
                } else {
                    IdentityLookup::Answer(None)
                },
            ),
            StoredIdentity::Failed(error) => Err(error),
        },
{
    match stored {
        StoredIdentity::Found(identity) => Ok(IdentityLookup::Answer(Some(identity))),
        StoredIdentity::NotFound => if fallback_to_server {
            Ok(IdentityLookup::AskServer)
        } else {
            Ok(IdentityLookup::Answer(None))
        },
        StoredIdentity::Failed(error) => Err(error),
    }
}

/// How a reset of the cross-signing keys is confirmed.
pub enum CrossSigningResetAuthType {
    /// With an authentication at the homeserver.
    Uiaa,
    /// At a URL.
    Oidc { info: OidcCrossSigningResetInfo },
}

/// Where a reset of the cross-signing keys is confirmed.
pub struct OidcCrossSigningResetInfo {
    /// The URL where the user can approve the reset.
    pub approval_url: String,
}

impl CrossSigningResetAuthType {
    /// How a reset is confirmed: at a URL if there is one.
    pub fn from(approval_url: Option<String>) -> (r: CrossSigningResetAuthType)
        ensures
            r == match approval_url {
                None => CrossSigningResetAuthType::Uiaa,
                Some(approval_url) => CrossSigningResetAuthType::Oidc {
                    info: OidcCrossSigningResetInfo { approval_url },
                },
            },
    {
        match approval_url {
            None => CrossSigningResetAuthType::Uiaa,
            Some(approval_url) => CrossSigningResetAuthType::Oidc {
                info: OidcCrossSigningResetInfo { approval_url },
            },
        }
    }
}

/// Progress is told by its own name, and counts that fit are told as they are; of recovery,
/// the count of what is backed up stands for the total too.
pub proof fn progress_is_told(
    counts: RoomKeyCounts,
    recovery_key: String,
    uploads: (BackupUploadState, BackupUploadState, BackupUploadState, BackupUploadState),
    recovery: (EnableRecoveryProgress, EnableRecoveryProgress),
)
    requires
        call_ensures(BackupUploadState::from, (UploadState::Idle,), uploads.0),
        call_ensures(BackupUploadState::from, (UploadState::Uploading(counts),), uploads.1),
        call_ensures(BackupUploadState::from, (UploadState::Error,), uploads.2),
        call_ensures(BackupUploadState::from, (UploadState::Done,), uploads.3),
        call_ensures(
            EnableRecoveryProgress::from,
            (EnableProgress::Done { recovery_key },),
            recovery.0,
        ),
        call_ensures(
            EnableRecoveryProgress::from,
            (EnableProgress::BackingUp(counts),),
            recovery.1,
        ),
    ensures
        uploads.0 is Waiting && uploads.2 is Error && uploads.3 is Done,
        uploads.1 matches BackupUploadState::Uploading { backed_up_count, total_count } && {
            &&& counts.backed_up <= u32::MAX ==> backed_up_count == counts.backed_up
            &&& counts.total <= u32::MAX ==> total_count == counts.total
            &&& counts.backed_up > u32::MAX ==> backed_up_count == u32::MAX
            &&& counts.total > u32::MAX ==> total_count == u32::MAX
        },
        recovery.0 == (EnableRecoveryProgress::Done { recovery_key }),
        recovery.1 is BackingUp,
        counts.backed_up <= u32::MAX ==> recovery.1->backed_up_count == counts.backed_up,
{
}

/// The steps of enabling recovery are told one for one.
pub proof fn recovery_steps_are_told(
    r: (
        EnableRecoveryProgress,
        EnableRecoveryProgress,
        EnableRecoveryProgress,
        EnableRecoveryProgress,
    ),
)
    requires
        call_ensures(EnableRecoveryProgress::from, (EnableProgress::Starting,), r.0),
        call_ensures(EnableRecoveryProgress::from, (EnableProgress::CreatingBackup,), r.1),
        call_ensures(EnableRecoveryProgress::from, (EnableProgress::CreatingRecoveryKey,), r.2),
        call_ensures(EnableRecoveryProgress::from, (EnableProgress::RoomKeyUploadError,), r.3),
    ensures
        r.0 is Starting && r.1 is CreatingBackup && r.2 is CreatingRecoveryKey
            && r.3 is RoomKeyUploadError,
{
}

/// Errors of recovery are told by what went wrong: an import by the whole text, another error
/// of the secret storage by its own.
pub proof fn recovery_errors_are_told(
    error: ClientError,
    storage_message: String,
    message: String,
    r: (RecoveryError, RecoveryError, RecoveryError, RecoveryError),
)
    requires
        call_ensures(RecoveryError::from, (SdkRecoveryError::BackupExistsOnServer,), r.0),
        call_ensures(RecoveryError::from, (SdkRecoveryError::Sdk { error },), r.1),
        call_ensures(
            RecoveryError::from,
            (SdkRecoveryError::SecretStorage { is_import: true, storage_message, message },),
            r.2,
        ),
        call_ensures(
            RecoveryError::from,
            (SdkRecoveryError::SecretStorage { is_import: false, storage_message, message },),
            r.3,
        ),
    ensures
        r.0 is BackupExistsOnServer,
        r.1 == (RecoveryError::Client { source: error }),
        r.2 == (RecoveryError::Import { error_message: message }),
        r.3 == (RecoveryError::SecretStorage { error_message: storage_message }),
{
}

/// An identity that is stored is the answer, whether or not the homeserver may be asked; the
/// homeserver is asked only for one that is not, and only if it may; and an error of the store
/// is handed on.
pub proof fn the_store_is_asked_first<I, E>(
    identity: I,
    error: E,
    may_ask: bool,
    found: Result<IdentityLookup<I>, E>,
    missing: Result<IdentityLookup<I>, E>,
    failed: Result<IdentityLookup<I>, E>,
)
    requires
        call_ensures(identity_lookup::<I, E>, (StoredIdentity::Found(identity), may_ask), found),
        call_ensures(identity_lookup::<I, E>, (StoredIdentity::NotFound, may_ask), missing),
        call_ensures(identity_lookup::<I, E>, (StoredIdentity::Failed(error), may_ask), failed),
    ensures
        found == Ok::<IdentityLookup<I>, E>(IdentityLookup::Answer(Some(identity))),
        failed == Err::<IdentityLookup<I>, E>(error),
        missing is Ok,
        missing->Ok_0 is AskServer <==> may_ask,
        !may_ask ==> missing->Ok_0 == IdentityLookup::<I>::Answer(None),
{
}

/// A reset of the cross-signing keys is approved at the URL that was given, if one was.
pub proof fn resets_are_approved_at_the_url(
    url: Option<String>,
    r: CrossSigningResetAuthType,
)
    requires
        call_ensures(CrossSigningResetAuthType::from, (url,), r),
    ensures
        r is Uiaa <==> url is None,
        url is Some ==> r->info.approval_url == url->0,
{
}

} // verus!
