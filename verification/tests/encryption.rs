use matrix_sdk_ffi::encryption::{
    identity_lookup, BackupUploadState, CrossSigningResetAuthType, EnableProgress,
    EnableRecoveryProgress, IdentityLookup, RecoveryError, RoomKeyCounts, SdkRecoveryError,
    SteadyStateError, StoredIdentity, UploadState,
};
use matrix_sdk_ffi::encryption_sync::{
    after_round, EncryptionSyncMode, EncryptionSyncRound, EncryptionSyncTerminationReason,
};
use matrix_sdk_ffi::error::ClientError;

#[test]
fn upload_counts_are_capped() {
    let counts = RoomKeyCounts { total: usize::MAX, backed_up: 7 };
    assert!(matches!(
        BackupUploadState::from(UploadState::Uploading(counts)),
        BackupUploadState::Uploading { backed_up_count: 7, total_count: u32::MAX }
    ));
    assert!(matches!(BackupUploadState::from(UploadState::Idle), BackupUploadState::Waiting));
    assert!(matches!(BackupUploadState::from(UploadState::Error), BackupUploadState::Error));
    assert!(matches!(BackupUploadState::from(UploadState::Done), BackupUploadState::Done));
}

#[test]
fn progress_of_enabling_recovery_is_told() {
    let counts = RoomKeyCounts { total: 9, backed_up: 7 };
    assert!(matches!(
        EnableRecoveryProgress::from(EnableProgress::BackingUp(counts)),
        EnableRecoveryProgress::BackingUp { backed_up_count: 7, total_count: 7 }
    ));
    assert!(matches!(
        EnableRecoveryProgress::from(EnableProgress::Starting),
        EnableRecoveryProgress::Starting
    ));
    assert!(matches!(
        EnableRecoveryProgress::from(EnableProgress::CreatingBackup),
        EnableRecoveryProgress::CreatingBackup
    ));
    assert!(matches!(
        EnableRecoveryProgress::from(EnableProgress::CreatingRecoveryKey),
        EnableRecoveryProgress::CreatingRecoveryKey
    ));
    assert!(matches!(
        EnableRecoveryProgress::from(EnableProgress::RoomKeyUploadError),
        EnableRecoveryProgress::RoomKeyUploadError
    ));
    let done = EnableProgress::Done { recovery_key: "key".to_owned() };
    assert!(matches!(
        EnableRecoveryProgress::from(done),
        EnableRecoveryProgress::Done { recovery_key } if recovery_key == "key"
    ));
}

#[test]
fn recovery_errors_have_texts() {
    let storage = |is_import| SdkRecoveryError::SecretStorage {
        is_import,
        storage_message: "inner".to_owned(),
        message: "outer".to_owned(),
    };
    let import = RecoveryError::from(storage(true));
    assert!(matches!(&import, RecoveryError::Import { error_message } if error_message == "outer"));
    assert_eq!(import.to_string(), "Error importing a secret: outer");
    let stored = RecoveryError::from(storage(false));
    assert!(
        matches!(&stored, RecoveryError::SecretStorage { error_message } if error_message == "inner")
    );
    assert_eq!(stored.to_string(), "Error in the secret-storage subsystem: inner");
    let exists = RecoveryError::from(SdkRecoveryError::BackupExistsOnServer);
    assert_eq!(
        exists.to_string(),
        "A backup already exists on the homeserver and the method does not allow to overwrite it"
    );
    let error = ClientError::Generic { msg: "no network".to_owned(), details: None };
    let client = RecoveryError::from(SdkRecoveryError::Sdk { error });
    assert_eq!(client.to_string(), "client error: no network");
}

#[test]
fn steady_state_errors_have_texts() {
    assert_eq!(
        SteadyStateError::BackupDisabled.to_string(),
        "The backup got disabled while waiting for the room keys to be uploaded."
    );
    assert_eq!(SteadyStateError::Connection.to_string(), "There was a connection error.");
    assert_eq!(
        SteadyStateError::Lagged.to_string(),
        "We couldn't read status updates from the upload task quickly enough."
    );
}

#[test]
fn identities_are_asked_for_only_on_request() {
    assert!(matches!(
        identity_lookup::<u8, &str>(StoredIdentity::Found(1), true),
        Ok(IdentityLookup::Answer(Some(1)))
    ));
    assert!(matches!(
        identity_lookup::<u8, &str>(StoredIdentity::NotFound, false),
        Ok(IdentityLookup::Answer(None))
    ));
    assert!(matches!(
        identity_lookup::<u8, &str>(StoredIdentity::NotFound, true),
        Ok(IdentityLookup::AskServer)
    ));
}

#[test]
fn a_store_that_fails_is_an_error() {
    assert!(matches!(
        identity_lookup::<u8, &str>(StoredIdentity::Failed("locked"), true),
        Err("locked")
    ));
    assert!(matches!(
        identity_lookup::<u8, &str>(StoredIdentity::Failed("locked"), false),
        Err("locked")
    ));
}

#[test]
fn cross_signing_is_reset_at_the_url() {
    assert!(matches!(CrossSigningResetAuthType::from(None), CrossSigningResetAuthType::Uiaa));
    assert!(matches!(
        CrossSigningResetAuthType::from(Some("https://example.org/".to_owned())),
        CrossSigningResetAuthType::Oidc { info } if info.approval_url == "https://example.org/"
    ));
}

#[test]
fn encryption_sync_ends_with_its_reason() {
    assert!(matches!(EncryptionSyncMode::main(), EncryptionSyncMode::NeverStop));
    assert!(matches!(
        EncryptionSyncMode::notification(3),
        EncryptionSyncMode::RunFixedIterations { num_iters: 3 }
    ));
    assert!(after_round(EncryptionSyncRound::Synced).is_none());
    assert!(matches!(
        after_round(EncryptionSyncRound::Ended),
        Some(EncryptionSyncTerminationReason::Done)
    ));
    assert!(matches!(
        after_round(EncryptionSyncRound::Failed { msg: "gone".to_owned() }),
        Some(EncryptionSyncTerminationReason::Error { msg }) if msg == "gone"
    ));
}
