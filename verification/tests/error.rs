use std::time::{Duration, UNIX_EPOCH};

use matrix_sdk_ffi::error::{
    ApiError, ApiErrorBody, ApiErrorKind, ClientError, ErrorKind, MediaInfoError,
    NotYetImplemented, NotificationSettingsError, QueueWedgeError, RetryAfter, RoomError, SdkError,
};
use ruma::api::client::error::ErrorCode;

fn api_error_kind(errcode: &str) -> ApiErrorKind {
    ApiErrorKind {
        errcode: errcode.to_owned(),
        status: None,
        body: None,
        room_version: String::new(),
        retry_after: None,
        admin_contact: String::new(),
        soft_logout: false,
        current_version: None,
    }
}

fn api_error(errcode: &str) -> SdkError {
    SdkError::Http {
        api_error: Some(ApiError {
            body: ApiErrorBody::Standard {
                kind: api_error_kind(errcode),
                message: "no".to_owned(),
            },
            debug: "Error { .. }".to_owned(),
        }),
        message: "the server returned an error".to_owned(),
        debug: "Http(..)".to_owned(),
    }
}

#[test]
fn error_texts() {
    let generic = ClientError::Generic { msg: "oh".to_owned(), details: None };
    assert_eq!(generic.to_string(), "client error: oh");
    let api = ClientError::MatrixApi {
        kind: ErrorKind::Forbidden,
        code: "M_FORBIDDEN".to_owned(),
        msg: "no".to_owned(),
        details: None,
    };
    assert_eq!(api.to_string(), "api error M_FORBIDDEN: no");
    assert_eq!(RoomError::InvalidMediaInfo.to_string(), "Invalid media info");
    assert_eq!(RoomError::InvalidAttachmentData.to_string(), "Invalid attachment data");
    assert_eq!(RoomError::InvalidAttachmentMimeType.to_string(), "Invalid attachment mime type");
    assert_eq!(RoomError::TimelineUnavailable.to_string(), "Timeline unavailable");
    assert_eq!(RoomError::InvalidThumbnailData.to_string(), "Invalid thumbnail data");
    assert_eq!(RoomError::InvalidRepliedToEventId.to_string(), "Invalid replied to event ID");
    assert_eq!(RoomError::FailedSendingAttachment.to_string(), "Failed sending attachment");
    assert_eq!(
        MediaInfoError::MissingField.to_string(),
        "Required value missing from the media info"
    );
    assert_eq!(MediaInfoError::InvalidField.to_string(), "Media info field invalid");
    assert_eq!(
        NotificationSettingsError::InvalidRoomId { room_id: "x".to_owned() }.to_string(),
        "Invalid room ID x"
    );
    assert_eq!(
        NotificationSettingsError::Generic { msg: "x".to_owned() }.to_string(),
        "client error: x"
    );
    assert_eq!(
        NotificationSettingsError::RuleNotFound { rule_id: "x".to_owned() }.to_string(),
        "Rule not found: x"
    );
    assert_eq!(NotYetImplemented.to_string(), "not implemented yet");
}

#[test]
fn contexts_are_told_as_anyhow_does() {
    let cause = std::io::Error::other("no such thing");
    let error = anyhow::Error::new(cause).context("Looking");
    match ClientError::from_context("Looking", "no such thing") {
        ClientError::Generic { msg, details } => {
            assert_eq!(msg, format!("{error:#}"));
            assert_eq!(details, Some(format!("{error:?}")));
        }
        _ => panic!(),
    }

    let error = anyhow::Error::msg("just this");
    match ClientError::from_text("just this") {
        ClientError::Generic { msg, details } => {
            assert_eq!(msg, format!("{error:#}"));
            assert_eq!(details, Some(format!("{error:?}")));
        }
        _ => panic!(),
    }
}

#[test]
fn answers_of_the_homeserver_keep_their_parts() {
    match ClientError::from_sdk_error(api_error("M_FORBIDDEN"), 0) {
        ClientError::MatrixApi { kind: ErrorKind::Forbidden, code, msg, details } => {
            assert_eq!(code, "M_FORBIDDEN");
            assert_eq!(msg, "no");
            assert_eq!(details, Some("Error { .. }".to_owned()));
        }
        _ => panic!(),
    }
    match ClientError::from_sdk_error(api_error("ORG.EXAMPLE.ODD"), 0) {
        ClientError::MatrixApi { kind: ErrorKind::Custom { errcode }, code, .. } => {
            assert_eq!(errcode, "ORG.EXAMPLE.ODD");
            assert_eq!(code, "ORG.EXAMPLE.ODD");
        }
        _ => panic!(),
    }
}

#[test]
fn other_errors_are_generic() {
    let other = SdkError::Other { message: "m".to_owned(), debug: "d".to_owned() };
    let no_body = SdkError::Http {
        api_error: None,
        message: "m".to_owned(),
        debug: "d".to_owned(),
    };
    let odd_body = SdkError::Http {
        api_error: Some(ApiError { body: ApiErrorBody::Other, debug: "x".to_owned() }),
        message: "m".to_owned(),
        debug: "d".to_owned(),
    };
    for error in [other, no_body, odd_body] {
        match ClientError::from_sdk_error(error, 0) {
            ClientError::Generic { msg, details } => {
                assert_eq!(msg, "m");
                assert_eq!(details, Some("d".to_owned()));
            }
            _ => panic!(),
        }
    }
}

#[test]
fn every_code_of_matrix_is_handed_on_or_generic() {
    let with_a_kind = [
        "M_BAD_ALIAS",
        "M_BAD_JSON",
        "M_BAD_STATE",
        "M_BAD_STATUS",
        "M_CANNOT_LEAVE_SERVER_NOTICE_ROOM",
        "M_CANNOT_OVERWRITE_MEDIA",
        "M_CAPTCHA_INVALID",
        "M_CAPTCHA_NEEDED",
        "M_CONNECTION_FAILED",
        "M_CONNECTION_TIMEOUT",
        "M_DUPLICATE_ANNOTATION",
        "M_EXCLUSIVE",
        "M_FORBIDDEN",
        "M_GUEST_ACCESS_FORBIDDEN",
        "M_INCOMPATIBLE_ROOM_VERSION",
        "M_INVALID_PARAM",
        "M_INVALID_ROOM_STATE",
        "M_INVALID_USERNAME",
        "M_LIMIT_EXCEEDED",
        "M_MISSING_PARAM",
        "M_MISSING_TOKEN",
        "M_NOT_FOUND",
        "M_NOT_JSON",
        "M_NOT_YET_UPLOADED",
        "M_RESOURCE_LIMIT_EXCEEDED",
        "M_ROOM_IN_USE",
        "M_SERVER_NOT_TRUSTED",
        "M_THREEPID_AUTH_FAILED",
        "M_THREEPID_DENIED",
        "M_THREEPID_IN_USE",
        "M_THREEPID_MEDIUM_NOT_SUPPORTED",
        "M_THREEPID_NOT_FOUND",
        "M_TOO_LARGE",
        "M_UNABLE_TO_AUTHORISE_JOIN",
        "M_UNABLE_TO_GRANT_JOIN",
        "M_UNAUTHORIZED",
        "M_UNKNOWN",
        "M_UNKNOWN_TOKEN",
        "M_UNRECOGNIZED",
        "M_UNSUPPORTED_ROOM_VERSION",
        "M_URL_NOT_SET",
        "M_USER_DEACTIVATED",
        "M_USER_IN_USE",
        "M_USER_LOCKED",
        "M_USER_SUSPENDED",
        "M_WEAK_PASSWORD",
        "M_WRONG_ROOM_KEYS_VERSION",
    ];
    for code in with_a_kind {
        assert!(!matches!(ErrorCode::from(code), ErrorCode::_Custom(_)), "{code}");
        let kind = ErrorKind::try_from(api_error_kind(code), 0);
        assert!(matches!(kind, Ok(ref kind) if !matches!(kind, ErrorKind::Custom { .. })), "{code}");
    }

    // A code that Matrix knows, but that has no kind.
    assert!(!matches!(ErrorCode::from("M_UNKNOWN_POS"), ErrorCode::_Custom(_)));
    assert!(ErrorKind::try_from(api_error_kind("M_UNKNOWN_POS"), 0).is_err());
    match ClientError::from_sdk_error(api_error("M_UNKNOWN_POS"), 0) {
        ClientError::Generic { msg, .. } => assert_eq!(msg, "the server returned an error"),
        _ => panic!(),
    }
}

#[test]
fn codes_keep_their_fields() {
    let mut kind = api_error_kind("M_BAD_STATUS");
    kind.status = Some(502);
    kind.body = Some("gone".to_owned());
    assert!(matches!(
        ErrorKind::try_from(kind, 0),
        Ok(ErrorKind::BadStatus { status: Some(502), body: Some(ref body) }) if body == "gone"
    ));

    let mut kind = api_error_kind("M_INCOMPATIBLE_ROOM_VERSION");
    kind.room_version = "11".to_owned();
    assert!(matches!(
        ErrorKind::try_from(kind, 0),
        Ok(ErrorKind::IncompatibleRoomVersion { ref room_version }) if room_version == "11"
    ));

    let mut kind = api_error_kind("M_RESOURCE_LIMIT_EXCEEDED");
    kind.admin_contact = "mailto:a@b.c".to_owned();
    assert!(matches!(
        ErrorKind::try_from(kind, 0),
        Ok(ErrorKind::ResourceLimitExceeded { ref admin_contact }) if admin_contact == "mailto:a@b.c"
    ));

    let mut kind = api_error_kind("M_UNKNOWN_TOKEN");
    kind.soft_logout = true;
    assert!(matches!(
        ErrorKind::try_from(kind, 0),
        Ok(ErrorKind::UnknownToken { soft_logout: true })
    ));

    let mut kind = api_error_kind("M_WRONG_ROOM_KEYS_VERSION");
    kind.current_version = Some("2".to_owned());
    assert!(matches!(
        ErrorKind::try_from(kind, 0),
        Ok(ErrorKind::WrongRoomKeysVersion { current_version: Some(ref version) }) if version == "2"
    ));
}

#[test]
fn delays_are_counted_from_now() {
    assert_eq!(RetryAfter::Delay { millis: 1500 }.delay_ms(7), Some(1500));

    let now_ms: u64 = 1_700_000_000_000;
    let now = UNIX_EPOCH + Duration::from_millis(now_ms);
    let later = now + Duration::from_millis(2500);
    let nanos = later.duration_since(UNIX_EPOCH).unwrap().as_nanos() as i128;
    assert_eq!(RetryAfter::DateTime { nanos }.delay_ms(now_ms), Some(2500));
    assert_eq!(RetryAfter::DateTime { nanos }.delay_ms(now_ms + 2500), Some(0));
    assert_eq!(RetryAfter::DateTime { nanos }.delay_ms(now_ms + 2501), None);

    let mut kind = api_error_kind("M_LIMIT_EXCEEDED");
    kind.retry_after = Some(RetryAfter::Delay { millis: 42 });
    assert!(matches!(
        ErrorKind::try_from(kind, 0),
        Ok(ErrorKind::LimitExceeded { retry_after_ms: Some(42) })
    ));
}

#[test]
fn unspecified_codes_are_custom() {
    assert!(matches!(
        ErrorKind::try_from_parts(api_error_kind("X"), false, 0),
        Ok(ErrorKind::Custom { ref errcode }) if errcode == "X"
    ));
    assert!(ErrorKind::try_from_parts(api_error_kind("X"), true, 0).is_err());
}

#[test]
fn wedge_texts_name_nobody() {
    let devices = QueueWedgeError::InsecureDevices {
        user_device_map: vec![("@a:b.c".to_owned(), vec!["DEVICE".to_owned()])],
    };
    assert_eq!(devices.to_string(), "There are insecure devices in the room");
    let users = QueueWedgeError::IdentityViolations { users: vec!["@a:b.c".to_owned()] };
    assert_eq!(users.to_string(), "Some users that were previously verified are not anymore");
    assert_eq!(
        QueueWedgeError::CrossVerificationRequired.to_string(),
        "Own verification is required"
    );
    assert_eq!(
        QueueWedgeError::MissingMediaContent.to_string(),
        "Media to be sent disappeared from local storage"
    );
    assert_eq!(
        QueueWedgeError::InvalidMimeType { mime_type: "x".to_owned() }.to_string(),
        "Invalid mime type 'x' for media upload"
    );
    assert_eq!(QueueWedgeError::GenericApiError { msg: "m".to_owned() }.to_string(), "m");
}

#[test]
fn what_is_not_implemented_is_told() {
    match ClientError::from_not_yet_implemented(NotYetImplemented) {
        ClientError::Generic { msg, details } => {
            assert_eq!(msg, "This functionality is not implemented yet.");
            assert_eq!(details, None);
        }
        _ => panic!(),
    }
}
