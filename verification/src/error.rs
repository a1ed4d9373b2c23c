//! The errors that the bindings hand to their callers.

use ruma::api::client::error::ErrorCode;
use vstd::prelude::*;

use crate::text::{concat2, concat3, same};

verus! {

/// An error of a client call.
pub enum ClientError {
    /// Any error that has no other form.
    Generic { msg: String, details: Option<String> },
    /// An error that the homeserver answered with.
    MatrixApi { kind: ErrorKind, code: String, msg: String, details: Option<String> },
}

impl ClientError {
    /// A generic error from the text of another one.
    pub fn from_str(error: &str, details: Option<String>) -> (r: Self)
        ensures
            r matches ClientError::Generic { msg, details: d } && msg@ == error@ && d == details,
    {
        ClientError::Generic { msg: error.to_owned(), details }
    }

    /// A generic error from the message of another one and its debug text.
    pub fn from_err(message: &str, debug: String) -> (r: Self)
        ensures
            r matches ClientError::Generic { msg, details } && msg@ == message@ && details == Some(
                debug,
            ),
    {
        Self::from_str(message, Some(debug))
    }

    /// An error that consists of a text alone.
    pub fn from_text(text: &str) -> (r: Self)
        ensures
            text_error(text@, r),
    {
        Self::from_err(text, text.to_owned())
    }

    /// An error that says what was tried, and why it failed.
    pub fn from_context(context: &str, cause: &str) -> (r: Self)
        ensures
            context_error(context@, cause@, r),
    {
        let message: String = concat3(context, ": ", cause);
        let debug: String = concat3(context, "\n\nCaused by:\n    ", cause);
        Self::from_err(message.as_str(), debug)
    }

    /// What an error of the SDK becomes: an answer of the homeserver with a
    /// standard body whose kind is known keeps its parts, anything else is
    /// generic.
    pub fn from_sdk_error(error: SdkError, now_ms: u64) -> (r: Self)
        ensures
            client_error_of(error, now_ms, r),
    {
        match error {
            SdkError::Http { api_error, message, debug } => {
                match api_error {
                    Some(ApiError { body: ApiErrorBody::Standard { kind, message: api_message }, debug: api_debug }) => {
                        let code: String = kind.errcode.clone();
                        match ErrorKind::try_from(kind, now_ms) {
                            Ok(kind) => ClientError::MatrixApi {
                                kind,
                                code,
                                msg: api_message,
                                details: Some(api_debug),
                            },
                            Err(_) => Self::from_err(message.as_str(), debug),
                        }
                    },
                    _ => Self::from_err(message.as_str(), debug),
                }
            },
            SdkError::Other { message, debug } => Self::from_err(message.as_str(), debug),
        }
    }

    /// What asking for something that is not available becomes.
    pub fn from_not_yet_implemented(_error: NotYetImplemented) -> (r: Self)
        ensures
            r matches ClientError::Generic { msg, details } && msg@
                == "This functionality is not implemented yet."@ && details is None,
    {
        Self::from_str("This functionality is not implemented yet.", None)
    }

    /// The text of the error.
    pub fn to_string(&self) -> (r: String)
        ensures
            r@ == match *self {
                ClientError::Generic { msg, .. } => "client error: "@ + msg@,
                ClientError::MatrixApi { code, msg, .. } => "api error "@ + code@ + ": "@ + msg@,
            },
    {
        match self {
            ClientError::Generic { msg, .. } => concat2("client error: ", msg.as_str()),
            ClientError::MatrixApi { code, msg, .. } => {
                concat2(concat3("api error ", code.as_str(), ": ").as_str(), msg.as_str())
            },
        }
    }
}

/// Whether an error has this message and these details.
pub open spec fn texts_error(texts: (Seq<char>, Seq<char>), error: ClientError) -> bool {
    &&& error matches ClientError::Generic { msg, details }
    &&& msg@ == texts.0
    &&& details matches Some(debug)
    &&& debug@ == texts.1
}

/// Whether an error consists of a text alone.
pub open spec fn text_error(text: Seq<char>, error: ClientError) -> bool {
    texts_error((text, text), error)
}

/// Whether an error says that this was tried and failed for this cause. The details
/// are on lines of their own.
pub open spec fn context_error(context: Seq<char>, cause: Seq<char>, error: ClientError) -> bool {
    texts_error((context + ": "@ + cause, context + "\n\nCaused by:\n    "@ + cause), error)
}

/// What an error of the SDK says.
pub enum SdkError {
    /// An HTTP request failed; where the homeserver answered, with what.
    Http { api_error: Option<ApiError>, message: String, debug: String },
    /// Any other error.
    Other { message: String, debug: String },
}

/// An error answer of a homeserver, with its debug text.
pub struct ApiError {
    pub body: ApiErrorBody,
    pub debug: String,
}

/// The body of an error answer.
pub enum ApiErrorBody {
    /// A JSON body with an error code and a message.
    Standard { kind: ApiErrorKind, message: String },
    /// Any other body.
    Other,
}

/// The error code of an answer, and the fields that some codes come with.
pub struct ApiErrorKind {
    pub errcode: String,
    /// Of `M_BAD_STATUS`: the HTTP status of the application service.
    pub status: Option<u16>,
    /// Of `M_BAD_STATUS`: the body of its response.
    pub body: Option<String>,
    /// Of `M_INCOMPATIBLE_ROOM_VERSION`: the version of the room.
    pub room_version: String,
    /// Of `M_LIMIT_EXCEEDED`: when to try again.
    pub retry_after: Option<RetryAfter>,
    /// Of `M_RESOURCE_LIMIT_EXCEEDED`: how to reach the administrator.
    pub admin_contact: String,
    /// Of `M_UNKNOWN_TOKEN`: whether the session outlives the token.
    pub soft_logout: bool,
    /// Of `M_WRONG_ROOM_KEYS_VERSION`: the active version.
    pub current_version: Option<String>,
}

/// When a request may be sent again.
#[derive(Clone, Copy)]
pub enum RetryAfter {
    /// After this many milliseconds.
    Delay { millis: u128 },
    /// At this time, in nanoseconds since the Unix epoch.
    DateTime { nanos: i128 },
}

/// The number of values of a `u64`.
pub const U64_VALUES: u128 = 0x1_0000_0000_0000_0000;

/// The milliseconds of the delay that fit in 64 bits, counted from `now_ms`;
/// a time that has passed gives none.
pub open spec fn delay_ms_spec(retry_after: RetryAfter, now_ms: u64) -> Option<u64> {
    match retry_after {
        RetryAfter::Delay { millis } => Some((millis % U64_VALUES) as u64),
        RetryAfter::DateTime { nanos } => {
            let left = nanos - now_ms * 1_000_000;
            if left < 0 {
                None
            } else {
                Some(((left / 1_000_000) % U64_VALUES as int) as u64)
            }
        },
    }
}

/// The delay of an optional retry time.
pub open spec fn retry_after_ms(retry_after: Option<RetryAfter>, now_ms: u64) -> Option<u64> {
    match retry_after {
        Some(retry_after) => delay_ms_spec(retry_after, now_ms),
        None => None,
    }
}

impl RetryAfter {
    /// How long to wait, in milliseconds, if the time is not past.
    pub fn delay_ms(self, now_ms: u64) -> (r: Option<u64>)
        ensures
            r == delay_ms_spec(self, now_ms),
    {
        match self {
            RetryAfter::Delay { millis } => Some((millis % U64_VALUES) as u64),
            RetryAfter::DateTime { nanos } => {
                let now: i128 = now_ms as i128 * 1_000_000;
                if nanos < now {
                    None
                } else {
                    let left: u128 = (nanos - now) as u128;
                    Some(((left / 1_000_000) % U64_VALUES) as u64)
                }
            },
        }
    }
}

/// Something that is not available.
pub struct NotYetImplemented;

impl NotYetImplemented {
    /// The text of the error.
    pub fn to_string(&self) -> (r: String)
        ensures
            r@ == "not implemented yet"@,
    {
        "not implemented yet".to_owned()
    }
}

/// The kind of error that a homeserver answered with.
#[derive(Clone, Debug, PartialEq, Eq)]
pub enum ErrorKind {
    /// `M_BAD_ALIAS`
    BadAlias,
    /// `M_BAD_JSON`
    BadJson,
    /// `M_BAD_STATE`
    BadState,
    /// `M_BAD_STATUS`
    BadStatus { status: Option<u16>, body: Option<String> },
    /// `M_CANNOT_LEAVE_SERVER_NOTICE_ROOM`
    CannotLeaveServerNoticeRoom,
    /// `M_CANNOT_OVERWRITE_MEDIA`
    CannotOverwriteMedia,
    /// `M_CAPTCHA_INVALID`
    CaptchaInvalid,
    /// `M_CAPTCHA_NEEDED`
    CaptchaNeeded,
    /// `M_CONNECTION_FAILED`
    ConnectionFailed,
    /// `M_CONNECTION_TIMEOUT`
    ConnectionTimeout,
    /// `M_DUPLICATE_ANNOTATION`
    DuplicateAnnotation,
    /// `M_EXCLUSIVE`
    Exclusive,
    /// `M_FORBIDDEN`
    Forbidden,
    /// `M_GUEST_ACCESS_FORBIDDEN`
    GuestAccessForbidden,
    /// `M_INCOMPATIBLE_ROOM_VERSION`
    IncompatibleRoomVersion { room_version: String },
    /// `M_INVALID_PARAM`
    InvalidParam,
    /// `M_INVALID_ROOM_STATE`
    InvalidRoomState,
    /// `M_INVALID_USERNAME`
    InvalidUsername,
    /// `M_LIMIT_EXCEEDED`
    LimitExceeded { retry_after_ms: Option<u64> },
    /// `M_MISSING_PARAM`
    MissingParam,
    /// `M_MISSING_TOKEN`
    MissingToken,
    /// `M_NOT_FOUND`
    NotFound,
    /// `M_NOT_JSON`
    NotJson,
    /// `M_NOT_YET_UPLOADED`
    NotYetUploaded,
    /// `M_RESOURCE_LIMIT_EXCEEDED`
    ResourceLimitExceeded { admin_contact: String },
    /// `M_ROOM_IN_USE`
    RoomInUse,
    /// `M_SERVER_NOT_TRUSTED`
    ServerNotTrusted,
    /// `M_THREEPID_AUTH_FAILED`
    ThreepidAuthFailed,
    /// `M_THREEPID_DENIED`
    ThreepidDenied,
    /// `M_THREEPID_IN_USE`
    ThreepidInUse,
    /// `M_THREEPID_MEDIUM_NOT_SUPPORTED`
    ThreepidMediumNotSupported,
    /// `M_THREEPID_NOT_FOUND`
    ThreepidNotFound,
    /// `M_TOO_LARGE`
    TooLarge,
    /// `M_UNABLE_TO_AUTHORISE_JOIN`
    UnableToAuthorizeJoin,
    /// `M_UNABLE_TO_GRANT_JOIN`
    UnableToGrantJoin,
    /// `M_UNAUTHORIZED`
    Unauthorized,
    /// `M_UNKNOWN`
    Unknown,
    /// `M_UNKNOWN_TOKEN`
    UnknownToken { soft_logout: bool },
    /// `M_UNRECOGNIZED`
    Unrecognized,
    /// `M_UNSUPPORTED_ROOM_VERSION`
    UnsupportedRoomVersion,
    /// `M_URL_NOT_SET`
    UrlNotSet,
    /// `M_USER_DEACTIVATED`
    UserDeactivated,
    /// `M_USER_IN_USE`
    UserInUse,
    /// `M_USER_LOCKED`
    UserLocked,
    /// `M_USER_SUSPENDED`
    UserSuspended,
    /// `M_WEAK_PASSWORD`
    WeakPassword,
    /// `M_WRONG_ROOM_KEYS_VERSION`
    WrongRoomKeysVersion { current_version: Option<String> },
    /// Any error code that is not part of the specified set.
    Custom { errcode: String },
}

/// Whether the code is one that the Matrix types know.
pub uninterp spec fn errcode_is_known(errcode: Seq<char>) -> bool;

/// Whether `ruma::api::client::error::ErrorCode::from` gives a variant of its
/// own for the code, and not the one that holds custom codes. Claimed: the
/// answer depends on the code alone.
#[verifier::external_body]
fn is_known_errcode(errcode: &str) -> (r: bool)
    ensures
        r == errcode_is_known(errcode@),
{
    !matches!(ErrorCode::from(errcode), ErrorCode::_Custom(_))
}

/// The kind of error that a code with its fields stands for, at a given time.
/// `known` says whether the code is specified: an unspecified one is custom, a
/// specified one that has no kind here gives an error.
pub open spec fn error_kind_of(value: ApiErrorKind, known: bool, now_ms: u64) -> Result<
    ErrorKind,
    NotYetImplemented,
> {
    let code = value.errcode@;
    if code == "M_BAD_ALIAS"@ {
        Ok(ErrorKind::BadAlias)
    } else if code == "M_BAD_JSON"@ {
        Ok(ErrorKind::BadJson)
    } else if code == "M_BAD_STATE"@ {
        Ok(ErrorKind::BadState)
    } else if code == "M_BAD_STATUS"@ {
        Ok(ErrorKind::BadStatus { status: value.status, body: value.body })
    } else if code == "M_CANNOT_LEAVE_SERVER_NOTICE_ROOM"@ {
        Ok(ErrorKind::CannotLeaveServerNoticeRoom)
    } else if code == "M_CANNOT_OVERWRITE_MEDIA"@ {
        Ok(ErrorKind::CannotOverwriteMedia)
    } else if code == "M_CAPTCHA_INVALID"@ {
        Ok(ErrorKind::CaptchaInvalid)
    } else if code == "M_CAPTCHA_NEEDED"@ {
        Ok(ErrorKind::CaptchaNeeded)
    } else if code == "M_CONNECTION_FAILED"@ {
        Ok(ErrorKind::ConnectionFailed)
    } else if code == "M_CONNECTION_TIMEOUT"@ {
        Ok(ErrorKind::ConnectionTimeout)
    } else if code == "M_DUPLICATE_ANNOTATION"@ {
        Ok(ErrorKind::DuplicateAnnotation)
    } else if code == "M_EXCLUSIVE"@ {
        Ok(ErrorKind::Exclusive)
    } else if code == "M_FORBIDDEN"@ {
        Ok(ErrorKind::Forbidden)
    } else if code == "M_GUEST_ACCESS_FORBIDDEN"@ {
        Ok(ErrorKind::GuestAccessForbidden)
    } else if code == "M_INCOMPATIBLE_ROOM_VERSION"@ {
        Ok(ErrorKind::IncompatibleRoomVersion { room_version: value.room_version })
    } else if code == "M_INVALID_PARAM"@ {
        Ok(ErrorKind::InvalidParam)
    } else if code == "M_INVALID_ROOM_STATE"@ {
        Ok(ErrorKind::InvalidRoomState)
    } else if code == "M_INVALID_USERNAME"@ {
        Ok(ErrorKind::InvalidUsername)
    } else if code == "M_LIMIT_EXCEEDED"@ {
        Ok(ErrorKind::LimitExceeded { retry_after_ms: retry_after_ms(value.retry_after, now_ms) })
    } else if code == "M_MISSING_PARAM"@ {
        Ok(ErrorKind::MissingParam)
    } else if code == "M_MISSING_TOKEN"@ {
        Ok(ErrorKind::MissingToken)
    } else if code == "M_NOT_FOUND"@ {
        Ok(ErrorKind::NotFound)
    } else if code == "M_NOT_JSON"@ {
        Ok(ErrorKind::NotJson)
    } else if code == "M_NOT_YET_UPLOADED"@ {
        Ok(ErrorKind::NotYetUploaded)
    } else if code == "M_RESOURCE_LIMIT_EXCEEDED"@ {
        Ok(ErrorKind::ResourceLimitExceeded { admin_contact: value.admin_contact })
    } else if code == "M_ROOM_IN_USE"@ {
        Ok(ErrorKind::RoomInUse)
    } else if code == "M_SERVER_NOT_TRUSTED"@ {
        Ok(ErrorKind::ServerNotTrusted)
    } else if code == "M_THREEPID_AUTH_FAILED"@ {
        Ok(ErrorKind::ThreepidAuthFailed)
    } else if code == "M_THREEPID_DENIED"@ {
        Ok(ErrorKind::ThreepidDenied)
    } else if code == "M_THREEPID_IN_USE"@ {
        Ok(ErrorKind::ThreepidInUse)
    } else if code == "M_THREEPID_MEDIUM_NOT_SUPPORTED"@ {
        Ok(ErrorKind::ThreepidMediumNotSupported)
    } else if code == "M_THREEPID_NOT_FOUND"@ {
        Ok(ErrorKind::ThreepidNotFound)
    } else if code == "M_TOO_LARGE"@ {
        Ok(ErrorKind::TooLarge)
    } else if code == "M_UNABLE_TO_AUTHORISE_JOIN"@ {
        Ok(ErrorKind::UnableToAuthorizeJoin)
    } else if code == "M_UNABLE_TO_GRANT_JOIN"@ {
        Ok(ErrorKind::UnableToGrantJoin)
    } else if code == "M_UNAUTHORIZED"@ {
        Ok(ErrorKind::Unauthorized)
    } else if code == "M_UNKNOWN"@ {
        Ok(ErrorKind::Unknown)
    } else if code == "M_UNKNOWN_TOKEN"@ {
        Ok(ErrorKind::UnknownToken { soft_logout: value.soft_logout })
    } else if code == "M_UNRECOGNIZED"@ {
        Ok(ErrorKind::Unrecognized)
    } else if code == "M_UNSUPPORTED_ROOM_VERSION"@ {
        Ok(ErrorKind::UnsupportedRoomVersion)
    } else if code == "M_URL_NOT_SET"@ {
        Ok(ErrorKind::UrlNotSet)
    } else if code == "M_USER_DEACTIVATED"@ {
        Ok(ErrorKind::UserDeactivated)
    } else if code == "M_USER_IN_USE"@ {
        Ok(ErrorKind::UserInUse)
    } else if code == "M_USER_LOCKED"@ {
        Ok(ErrorKind::UserLocked)
    } else if code == "M_USER_SUSPENDED"@ {
        Ok(ErrorKind::UserSuspended)
    } else if code == "M_WEAK_PASSWORD"@ {
        Ok(ErrorKind::WeakPassword)
    } else if code == "M_WRONG_ROOM_KEYS_VERSION"@ {
        Ok(ErrorKind::WrongRoomKeysVersion { current_version: value.current_version })
    } else if !known {
        Ok(ErrorKind::Custom { errcode: value.errcode })
    } else {
        Err(NotYetImplemented)
    }
}

impl ErrorKind {
    /// The kind of error that an answer's code and fields stand for.
    pub fn try_from(value: ApiErrorKind, now_ms: u64) -> (r: Result<ErrorKind, NotYetImplemented>)
        ensures
            r == error_kind_of(value, errcode_is_known(value.errcode@), now_ms),
    {
        let known = is_known_errcode(value.errcode.as_str());
        Self::try_from_parts(value, known, now_ms)
    }

    /// The kind of error that a code and its fields stand for, where `known`
    /// says whether the code is a specified one.
    #[verifier::rlimit(40)]
    pub fn try_from_parts(value: ApiErrorKind, known: bool, now_ms: u64) -> (r: Result<
        ErrorKind,
        NotYetImplemented,
    >)
        ensures
            r == error_kind_of(value, known, now_ms),
    {
        let errcode = value.errcode.clone();
        let code: &str = errcode.as_str();
        if same(code, "M_BAD_ALIAS") {
            Ok(ErrorKind::BadAlias)
        } else if same(code, "M_BAD_JSON") {
            Ok(ErrorKind::BadJson)
        } else if same(code, "M_BAD_STATE") {
            Ok(ErrorKind::BadState)
        } else if same(code, "M_BAD_STATUS") {
            Ok(ErrorKind::BadStatus { status: value.status, body: value.body })
        } else if same(code, "M_CANNOT_LEAVE_SERVER_NOTICE_ROOM") {
            Ok(ErrorKind::CannotLeaveServerNoticeRoom)
        } else if same(code, "M_CANNOT_OVERWRITE_MEDIA") {
            Ok(ErrorKind::CannotOverwriteMedia)
        } else if same(code, "M_CAPTCHA_INVALID") {
            Ok(ErrorKind::CaptchaInvalid)
        } else if same(code, "M_CAPTCHA_NEEDED") {
            Ok(ErrorKind::CaptchaNeeded)
        } else if same(code, "M_CONNECTION_FAILED") {
            Ok(ErrorKind::ConnectionFailed)
        } else if same(code, "M_CONNECTION_TIMEOUT") {
            Ok(ErrorKind::ConnectionTimeout)
        } else if same(code, "M_DUPLICATE_ANNOTATION") {
            Ok(ErrorKind::DuplicateAnnotation)
        } else if same(code, "M_EXCLUSIVE") {
            Ok(ErrorKind::Exclusive)
        } else if same(code, "M_FORBIDDEN") {
            Ok(ErrorKind::Forbidden)
        } else if same(code, "M_GUEST_ACCESS_FORBIDDEN") {
            Ok(ErrorKind::GuestAccessForbidden)
        } else if same(code, "M_INCOMPATIBLE_ROOM_VERSION") {
            Ok(ErrorKind::IncompatibleRoomVersion { room_version: value.room_version })
        } else if same(code, "M_INVALID_PARAM") {
            Ok(ErrorKind::InvalidParam)
        } else if same(code, "M_INVALID_ROOM_STATE") {
            Ok(ErrorKind::InvalidRoomState)
        } else if same(code, "M_INVALID_USERNAME") {
            Ok(ErrorKind::InvalidUsername)
        } else if same(code, "M_LIMIT_EXCEEDED") {
            let retry_after_ms: Option<u64> = match value.retry_after {
                Some(retry_after) => retry_after.delay_ms(now_ms),
                None => None,
            };
            Ok(ErrorKind::LimitExceeded { retry_after_ms })
        } else if same(code, "M_MISSING_PARAM") {
            Ok(ErrorKind::MissingParam)
        } else if same(code, "M_MISSING_TOKEN") {
            Ok(ErrorKind::MissingToken)
        } else if same(code, "M_NOT_FOUND") {
            Ok(ErrorKind::NotFound)
        } else if same(code, "M_NOT_JSON") {
            Ok(ErrorKind::NotJson)
        } else if same(code, "M_NOT_YET_UPLOADED") {
            Ok(ErrorKind::NotYetUploaded)
        } else if same(code, "M_RESOURCE_LIMIT_EXCEEDED") {
            Ok(ErrorKind::ResourceLimitExceeded { admin_contact: value.admin_contact })
        } else if same(code, "M_ROOM_IN_USE") {
            Ok(ErrorKind::RoomInUse)
        } else if same(code, "M_SERVER_NOT_TRUSTED") {
            Ok(ErrorKind::ServerNotTrusted)
        } else if same(code, "M_THREEPID_AUTH_FAILED") {
            Ok(ErrorKind::ThreepidAuthFailed)
        } else if same(code, "M_THREEPID_DENIED") {
            Ok(ErrorKind::ThreepidDenied)
        } else if same(code, "M_THREEPID_IN_USE") {
            Ok(ErrorKind::ThreepidInUse)
        } else if same(code, "M_THREEPID_MEDIUM_NOT_SUPPORTED") {
            Ok(ErrorKind::ThreepidMediumNotSupported)
        } else if same(code, "M_THREEPID_NOT_FOUND") {
            Ok(ErrorKind::ThreepidNotFound)
        } else if same(code, "M_TOO_LARGE") {
            Ok(ErrorKind::TooLarge)
        } else if same(code, "M_UNABLE_TO_AUTHORISE_JOIN") {
            Ok(ErrorKind::UnableToAuthorizeJoin)
        } else if same(code, "M_UNABLE_TO_GRANT_JOIN") {
            Ok(ErrorKind::UnableToGrantJoin)
        } else if same(code, "M_UNAUTHORIZED") {
            Ok(ErrorKind::Unauthorized)
        } else if same(code, "M_UNKNOWN") {
            Ok(ErrorKind::Unknown)
        } else if same(code, "M_UNKNOWN_TOKEN") {
            Ok(ErrorKind::UnknownToken { soft_logout: value.soft_logout })
        } else if same(code, "M_UNRECOGNIZED") {
            Ok(ErrorKind::Unrecognized)
        } else if same(code, "M_UNSUPPORTED_ROOM_VERSION") {
            Ok(ErrorKind::UnsupportedRoomVersion)
        } else if same(code, "M_URL_NOT_SET") {
            Ok(ErrorKind::UrlNotSet)
        } else if same(code, "M_USER_DEACTIVATED") {
            Ok(ErrorKind::UserDeactivated)
        } else if same(code, "M_USER_IN_USE") {
            Ok(ErrorKind::UserInUse)
        } else if same(code, "M_USER_LOCKED") {
            Ok(ErrorKind::UserLocked)
        } else if same(code, "M_USER_SUSPENDED") {
            Ok(ErrorKind::UserSuspended)
        } else if same(code, "M_WEAK_PASSWORD") {
            Ok(ErrorKind::WeakPassword)
        } else if same(code, "M_WRONG_ROOM_KEYS_VERSION") {
            Ok(ErrorKind::WrongRoomKeysVersion { current_version: value.current_version })
        } else if !known {
            Ok(ErrorKind::Custom { errcode: value.errcode })
        } else {
            Err(NotYetImplemented)
        }
    }
}

/// What `error` becomes when it is handed to a caller at `now_ms`.
pub open spec fn client_error_of(error: SdkError, now_ms: u64, r: ClientError) -> bool {
    match error {
        SdkError::Http { api_error, message, debug } => {
            match standard_kind(api_error, now_ms) {
                Some((kind, code, msg, details)) => r == (ClientError::MatrixApi {
                    kind,
                    code,
                    msg,
                    details: Some(details),
                }),
                None => r matches ClientError::Generic { msg, details } && msg@ == message@
                    && details == Some(debug),
            }
        },
        SdkError::Other { message, debug } => r matches ClientError::Generic { msg, details }
            && msg@ == message@ && details == Some(debug),
    }
}

/// The parts of an answer with a standard body whose code has a kind.
pub open spec fn standard_kind(api_error: Option<ApiError>, now_ms: u64) -> Option<
    (ErrorKind, String, String, String),
> {
    match api_error {
        Some(ApiError { body: ApiErrorBody::Standard { kind, message }, debug }) => {
            match error_kind_of(kind, errcode_is_known(kind.errcode@), now_ms) {
                Ok(error_kind) => Some((error_kind, kind.errcode, message, debug)),
                Err(_) => None,
            }
        },
        _ => None,
    }
}

/// The code that a kind of error stands for.
pub open spec fn errcode_of(kind: ErrorKind) -> Seq<char> {
    match kind {
        ErrorKind::BadAlias => "M_BAD_ALIAS"@,
        ErrorKind::BadJson => "M_BAD_JSON"@,
        ErrorKind::BadState => "M_BAD_STATE"@,
        ErrorKind::BadStatus { .. } => "M_BAD_STATUS"@,
        ErrorKind::CannotLeaveServerNoticeRoom => "M_CANNOT_LEAVE_SERVER_NOTICE_ROOM"@,
        ErrorKind::CannotOverwriteMedia => "M_CANNOT_OVERWRITE_MEDIA"@,
        ErrorKind::CaptchaInvalid => "M_CAPTCHA_INVALID"@,
        ErrorKind::CaptchaNeeded => "M_CAPTCHA_NEEDED"@,
        ErrorKind::ConnectionFailed => "M_CONNECTION_FAILED"@,
        ErrorKind::ConnectionTimeout => "M_CONNECTION_TIMEOUT"@,
        ErrorKind::DuplicateAnnotation => "M_DUPLICATE_ANNOTATION"@,
        ErrorKind::Exclusive => "M_EXCLUSIVE"@,
        ErrorKind::Forbidden => "M_FORBIDDEN"@,
        ErrorKind::GuestAccessForbidden => "M_GUEST_ACCESS_FORBIDDEN"@,
        ErrorKind::IncompatibleRoomVersion { .. } => "M_INCOMPATIBLE_ROOM_VERSION"@,
        ErrorKind::InvalidParam => "M_INVALID_PARAM"@,
        ErrorKind::InvalidRoomState => "M_INVALID_ROOM_STATE"@,
        ErrorKind::InvalidUsername => "M_INVALID_USERNAME"@,
        ErrorKind::LimitExceeded { .. } => "M_LIMIT_EXCEEDED"@,
        ErrorKind::MissingParam => "M_MISSING_PARAM"@,
        ErrorKind::MissingToken => "M_MISSING_TOKEN"@,
        ErrorKind::NotFound => "M_NOT_FOUND"@,
        ErrorKind::NotJson => "M_NOT_JSON"@,
        ErrorKind::NotYetUploaded => "M_NOT_YET_UPLOADED"@,
        ErrorKind::ResourceLimitExceeded { .. } => "M_RESOURCE_LIMIT_EXCEEDED"@,
        ErrorKind::RoomInUse => "M_ROOM_IN_USE"@,
        ErrorKind::ServerNotTrusted => "M_SERVER_NOT_TRUSTED"@,
        ErrorKind::ThreepidAuthFailed => "M_THREEPID_AUTH_FAILED"@,
        ErrorKind::ThreepidDenied => "M_THREEPID_DENIED"@,
        ErrorKind::ThreepidInUse => "M_THREEPID_IN_USE"@,
        ErrorKind::ThreepidMediumNotSupported => "M_THREEPID_MEDIUM_NOT_SUPPORTED"@,
        ErrorKind::ThreepidNotFound => "M_THREEPID_NOT_FOUND"@,
        ErrorKind::TooLarge => "M_TOO_LARGE"@,
        ErrorKind::UnableToAuthorizeJoin => "M_UNABLE_TO_AUTHORISE_JOIN"@,
        ErrorKind::UnableToGrantJoin => "M_UNABLE_TO_GRANT_JOIN"@,
        ErrorKind::Unauthorized => "M_UNAUTHORIZED"@,
        ErrorKind::Unknown => "M_UNKNOWN"@,
        ErrorKind::UnknownToken { .. } => "M_UNKNOWN_TOKEN"@,
        ErrorKind::Unrecognized => "M_UNRECOGNIZED"@,
        ErrorKind::UnsupportedRoomVersion => "M_UNSUPPORTED_ROOM_VERSION"@,
        ErrorKind::UrlNotSet => "M_URL_NOT_SET"@,
        ErrorKind::UserDeactivated => "M_USER_DEACTIVATED"@,
        ErrorKind::UserInUse => "M_USER_IN_USE"@,
        ErrorKind::UserLocked => "M_USER_LOCKED"@,
        ErrorKind::UserSuspended => "M_USER_SUSPENDED"@,
        ErrorKind::WeakPassword => "M_WEAK_PASSWORD"@,
        ErrorKind::WrongRoomKeysVersion { .. } => "M_WRONG_ROOM_KEYS_VERSION"@,
        ErrorKind::Custom { errcode } => errcode@,
    }
}

/// The kind that is handed to a caller stands for the very code that the
/// homeserver answered with.
pub proof fn kind_keeps_the_code(value: ApiErrorKind, known: bool, now_ms: u64)
    ensures
        error_kind_of(value, known, now_ms) matches Ok(kind) ==> errcode_of(kind) == value.errcode@,
{
}

/// No code is lost: an unspecified code is always handed on.
pub proof fn unspecified_code_is_handed_on(value: ApiErrorKind, now_ms: u64)
    ensures
        error_kind_of(value, false, now_ms) is Ok,
{
}

/// An error that keeps an event from being sent, until someone acts on it.
pub enum QueueWedgeError {
    /// There are insecure devices in the room, and the settings forbid sharing
    /// with them.
    InsecureDevices {
        /// The insecure devices of each user.
        user_device_map: Vec<(String, Vec<String>)>,
    },
    /// A user who was verified is not verified any more, and the settings
    /// forbid sharing then.
    IdentityViolations {
        /// The users who are expected to be verified but are not.
        users: Vec<String>,
    },
    /// Cross-signing has to be set up and the session verified first.
    CrossVerificationRequired,
    /// Some media content to be sent has disappeared from the cache.
    MissingMediaContent,
    /// Some mime type couldn't be parsed.
    InvalidMimeType { mime_type: String },
    /// Other errors.
    GenericApiError { msg: String },
}

/// The text of an error that keeps an event from being sent.
pub open spec fn queue_wedge_text(error: QueueWedgeError) -> Seq<char> {
    match error {
        QueueWedgeError::InsecureDevices { .. } => "There are insecure devices in the room"@,
        QueueWedgeError::IdentityViolations { .. } => {
            "Some users that were previously verified are not anymore"@
        },
        QueueWedgeError::CrossVerificationRequired => "Own verification is required"@,
        QueueWedgeError::MissingMediaContent => "Media to be sent disappeared from local storage"@,
        QueueWedgeError::InvalidMimeType { mime_type } => {
            "Invalid mime type '"@ + mime_type@ + "' for media upload"@
        },
        QueueWedgeError::GenericApiError { msg } => msg@,
    }
}

impl QueueWedgeError {
    /// The text of the error, without the identifiers of users and devices.
    pub fn to_string(&self) -> (r: String)
        ensures
            r@ == queue_wedge_text(*self),
    {
        match self {
            QueueWedgeError::InsecureDevices { .. } => {
                "There are insecure devices in the room".to_owned()
            },
            QueueWedgeError::IdentityViolations { .. } => {
                "Some users that were previously verified are not anymore".to_owned()
            },
            QueueWedgeError::CrossVerificationRequired => {
                "Own verification is required".to_owned()
            },
            QueueWedgeError::MissingMediaContent => {
                "Media to be sent disappeared from local storage".to_owned()
            },
            QueueWedgeError::InvalidMimeType { mime_type } => {
                concat3("Invalid mime type '", mime_type.as_str(), "' for media upload")
            },
            QueueWedgeError::GenericApiError { msg } => msg.clone(),
        }
    }
}

/// The text gives no user or device away: it is the same whichever they are.
pub proof fn queue_wedge_text_hides_identifiers(
    devices: Vec<(String, Vec<String>)>,
    other_devices: Vec<(String, Vec<String>)>,
    users: Vec<String>,
    other_users: Vec<String>,
)
    ensures
        queue_wedge_text(QueueWedgeError::InsecureDevices { user_device_map: devices })
            == queue_wedge_text(
            QueueWedgeError::InsecureDevices { user_device_map: other_devices },
        ),
        queue_wedge_text(QueueWedgeError::IdentityViolations { users }) == queue_wedge_text(
            QueueWedgeError::IdentityViolations { users: other_users },
        ),
{
}

/// An error of a call on a room.
#[derive(Clone, Copy, Debug, PartialEq, Eq, Structural)]
pub enum RoomError {
    InvalidAttachmentData,
    InvalidAttachmentMimeType,
    InvalidMediaInfo,
    TimelineUnavailable,
    InvalidThumbnailData,
    InvalidRepliedToEventId,
    FailedSendingAttachment,
}

impl RoomError {
    /// The text of the error.
    pub fn to_string(&self) -> (r: String)
        ensures
            r@ == match *self {
                RoomError::InvalidAttachmentData => "Invalid attachment data"@,
                RoomError::InvalidAttachmentMimeType => "Invalid attachment mime type"@,
                RoomError::InvalidMediaInfo => "Invalid media info"@,
                RoomError::TimelineUnavailable => "Timeline unavailable"@,
                RoomError::InvalidThumbnailData => "Invalid thumbnail data"@,
                RoomError::InvalidRepliedToEventId => "Invalid replied to event ID"@,
                RoomError::FailedSendingAttachment => "Failed sending attachment"@,
            },
    {
        match self {
            RoomError::InvalidAttachmentData => "Invalid attachment data".to_owned(),
            RoomError::InvalidAttachmentMimeType => "Invalid attachment mime type".to_owned(),
            RoomError::InvalidMediaInfo => "Invalid media info".to_owned(),
            RoomError::TimelineUnavailable => "Timeline unavailable".to_owned(),
            RoomError::InvalidThumbnailData => "Invalid thumbnail data".to_owned(),
            RoomError::InvalidRepliedToEventId => "Invalid replied to event ID".to_owned(),
            RoomError::FailedSendingAttachment => "Failed sending attachment".to_owned(),
        }
    }
}

/// An error in the description of a media file.
#[derive(Clone, Copy, Debug, PartialEq, Eq, Structural)]
pub enum MediaInfoError {
    MissingField,
    InvalidField,
}

impl MediaInfoError {
    /// The text of the error.
    pub fn to_string(&self) -> (r: String)
        ensures
            r@ == match *self {
                MediaInfoError::MissingField => "Required value missing from the media info"@,
                MediaInfoError::InvalidField => "Media info field invalid"@,
            },
    {
        match self {
            MediaInfoError::MissingField => {
                "Required value missing from the media info".to_owned()
            },
            MediaInfoError::InvalidField => "Media info field invalid".to_owned(),
        }
    }
}

/// An error in the notification settings.
pub enum NotificationSettingsError {
    Generic { msg: String },
    /// Invalid parameter.
    InvalidParameter { msg: String },
    /// Invalid room id.
    InvalidRoomId { room_id: String },
    /// Rule not found
    RuleNotFound { rule_id: String },
    /// Unable to add push rule.
    UnableToAddPushRule,
    /// Unable to remove push rule.
    UnableToRemovePushRule,
    /// Unable to save the push rules
    UnableToSavePushRules,
    /// Unable to update push rule.
    UnableToUpdatePushRule,
}

impl NotificationSettingsError {
    /// The text of the error.
    pub fn to_string(&self) -> (r: String)
        ensures
            r@ == match *self {
                NotificationSettingsError::Generic { msg } => "client error: "@ + msg@,
                NotificationSettingsError::InvalidParameter { msg } => {
                    "Invalid parameter: "@ + msg@
                },
                NotificationSettingsError::InvalidRoomId { room_id } => {
                    "Invalid room ID "@ + room_id@
                },
                NotificationSettingsError::RuleNotFound { rule_id } => {
                    "Rule not found: "@ + rule_id@
                },
                NotificationSettingsError::UnableToAddPushRule => "Unable to add push rule"@,
                NotificationSettingsError::UnableToRemovePushRule => "Unable to remove push rule"@,
                NotificationSettingsError::UnableToSavePushRules => "Unable to save push rules"@,
                NotificationSettingsError::UnableToUpdatePushRule => "Unable to update push rule"@,
            },
    {
        match self {
            NotificationSettingsError::Generic { msg } => concat2("client error: ", msg.as_str()),
            NotificationSettingsError::InvalidParameter { msg } => {
                concat2("Invalid parameter: ", msg.as_str())
            },
            NotificationSettingsError::InvalidRoomId { room_id } => {
                concat2("Invalid room ID ", room_id.as_str())
            },
            NotificationSettingsError::RuleNotFound { rule_id } => {
                concat2("Rule not found: ", rule_id.as_str())
            },
            NotificationSettingsError::UnableToAddPushRule => "Unable to add push rule".to_owned(),
            NotificationSettingsError::UnableToRemovePushRule => {
                "Unable to remove push rule".to_owned()
            },
            NotificationSettingsError::UnableToSavePushRules => {
                "Unable to save push rules".to_owned()
            },
            NotificationSettingsError::UnableToUpdatePushRule => {
                "Unable to update push rule".to_owned()
            },
        }
    }
}

/// A kind is told only of errors with the code that it stands for.
pub proof fn kinds_stand_for_their_codes(
    value: ApiErrorKind,
    now_ms: u64,
    r: Result<ErrorKind, NotYetImplemented>,
)
    requires
        call_ensures(ErrorKind::try_from, (value, now_ms), r),
    ensures
        r matches Ok(kind) ==> {
            let code = value.errcode@;
            &&& kind is BadAlias ==> code == "M_BAD_ALIAS"@
            &&& kind is BadJson ==> code == "M_BAD_JSON"@
            &&& kind is BadState ==> code == "M_BAD_STATE"@
            &&& kind is BadStatus ==> code == "M_BAD_STATUS"@
            &&& kind is CannotLeaveServerNoticeRoom ==> code == "M_CANNOT_LEAVE_SERVER_NOTICE_ROOM"@
            &&& kind is CannotOverwriteMedia ==> code == "M_CANNOT_OVERWRITE_MEDIA"@
            &&& kind is CaptchaInvalid ==> code == "M_CAPTCHA_INVALID"@
            &&& kind is CaptchaNeeded ==> code == "M_CAPTCHA_NEEDED"@
            &&& kind is ConnectionFailed ==> code == "M_CONNECTION_FAILED"@
            &&& kind is ConnectionTimeout ==> code == "M_CONNECTION_TIMEOUT"@
            &&& kind is DuplicateAnnotation ==> code == "M_DUPLICATE_ANNOTATION"@
            &&& kind is Exclusive ==> code == "M_EXCLUSIVE"@
            &&& kind is Forbidden ==> code == "M_FORBIDDEN"@
            &&& kind is GuestAccessForbidden ==> code == "M_GUEST_ACCESS_FORBIDDEN"@
            &&& kind is IncompatibleRoomVersion ==> code == "M_INCOMPATIBLE_ROOM_VERSION"@
            &&& kind is InvalidParam ==> code == "M_INVALID_PARAM"@
            &&& kind is InvalidRoomState ==> code == "M_INVALID_ROOM_STATE"@
            &&& kind is InvalidUsername ==> code == "M_INVALID_USERNAME"@
            &&& kind is LimitExceeded ==> code == "M_LIMIT_EXCEEDED"@
            &&& kind is MissingParam ==> code == "M_MISSING_PARAM"@
            &&& kind is MissingToken ==> code == "M_MISSING_TOKEN"@
            &&& kind is NotFound ==> code == "M_NOT_FOUND"@
            &&& kind is NotJson ==> code == "M_NOT_JSON"@
            &&& kind is NotYetUploaded ==> code == "M_NOT_YET_UPLOADED"@
            &&& kind is ResourceLimitExceeded ==> code == "M_RESOURCE_LIMIT_EXCEEDED"@
            &&& kind is RoomInUse ==> code == "M_ROOM_IN_USE"@
            &&& kind is ServerNotTrusted ==> code == "M_SERVER_NOT_TRUSTED"@
            &&& kind is ThreepidAuthFailed ==> code == "M_THREEPID_AUTH_FAILED"@
            &&& kind is ThreepidDenied ==> code == "M_THREEPID_DENIED"@
            &&& kind is ThreepidInUse ==> code == "M_THREEPID_IN_USE"@
            &&& kind is ThreepidMediumNotSupported ==> code == "M_THREEPID_MEDIUM_NOT_SUPPORTED"@
            &&& kind is ThreepidNotFound ==> code == "M_THREEPID_NOT_FOUND"@
            &&& kind is TooLarge ==> code == "M_TOO_LARGE"@
            &&& kind is UnableToAuthorizeJoin ==> code == "M_UNABLE_TO_AUTHORISE_JOIN"@
            &&& kind is UnableToGrantJoin ==> code == "M_UNABLE_TO_GRANT_JOIN"@
            &&& kind is Unauthorized ==> code == "M_UNAUTHORIZED"@
            &&& kind is Unknown ==> code == "M_UNKNOWN"@
            &&& kind is UnknownToken ==> code == "M_UNKNOWN_TOKEN"@
            &&& kind is Unrecognized ==> code == "M_UNRECOGNIZED"@
            &&& kind is UnsupportedRoomVersion ==> code == "M_UNSUPPORTED_ROOM_VERSION"@
            &&& kind is UrlNotSet ==> code == "M_URL_NOT_SET"@
            &&& kind is UserDeactivated ==> code == "M_USER_DEACTIVATED"@
            &&& kind is UserInUse ==> code == "M_USER_IN_USE"@
            &&& kind is UserLocked ==> code == "M_USER_LOCKED"@
            &&& kind is UserSuspended ==> code == "M_USER_SUSPENDED"@
            &&& kind is WeakPassword ==> code == "M_WEAK_PASSWORD"@
            &&& kind is WrongRoomKeysVersion ==> code == "M_WRONG_ROOM_KEYS_VERSION"@
            &&& kind is Custom ==> kind->errcode == value.errcode
        },
{
}

/// Only codes that are none of the usual ones are custom, or cannot be told.
pub proof fn custom_codes_are_none_of_the_usual_ones(
    value: ApiErrorKind,
    now_ms: u64,
    r: Result<ErrorKind, NotYetImplemented>,
)
    requires
        call_ensures(ErrorKind::try_from, (value, now_ms), r),
        r is Err || r->Ok_0 is Custom,
    ensures
        r is Err <==> errcode_is_known(value.errcode@),
        ({
            let code = value.errcode@;
            &&& code != "M_BAD_ALIAS"@
            &&& code != "M_BAD_JSON"@
            &&& code != "M_BAD_STATE"@
            &&& code != "M_BAD_STATUS"@
            &&& code != "M_CANNOT_LEAVE_SERVER_NOTICE_ROOM"@
            &&& code != "M_CANNOT_OVERWRITE_MEDIA"@
            &&& code != "M_CAPTCHA_INVALID"@
            &&& code != "M_CAPTCHA_NEEDED"@
            &&& code != "M_CONNECTION_FAILED"@
            &&& code != "M_CONNECTION_TIMEOUT"@
            &&& code != "M_DUPLICATE_ANNOTATION"@
            &&& code != "M_EXCLUSIVE"@
            &&& code != "M_FORBIDDEN"@
            &&& code != "M_GUEST_ACCESS_FORBIDDEN"@
            &&& code != "M_INCOMPATIBLE_ROOM_VERSION"@
            &&& code != "M_INVALID_PARAM"@
            &&& code != "M_INVALID_ROOM_STATE"@
            &&& code != "M_INVALID_USERNAME"@
            &&& code != "M_LIMIT_EXCEEDED"@
            &&& code != "M_MISSING_PARAM"@
            &&& code != "M_MISSING_TOKEN"@
            &&& code != "M_NOT_FOUND"@
            &&& code != "M_NOT_JSON"@
            &&& code != "M_NOT_YET_UPLOADED"@
            &&& code != "M_RESOURCE_LIMIT_EXCEEDED"@
            &&& code != "M_ROOM_IN_USE"@
            &&& code != "M_SERVER_NOT_TRUSTED"@
            &&& code != "M_THREEPID_AUTH_FAILED"@
            &&& code != "M_THREEPID_DENIED"@
            &&& code != "M_THREEPID_IN_USE"@
            &&& code != "M_THREEPID_MEDIUM_NOT_SUPPORTED"@
            &&& code != "M_THREEPID_NOT_FOUND"@
            &&& code != "M_TOO_LARGE"@
            &&& code != "M_UNABLE_TO_AUTHORISE_JOIN"@
            &&& code != "M_UNABLE_TO_GRANT_JOIN"@
            &&& code != "M_UNAUTHORIZED"@
            &&& code != "M_UNKNOWN"@
            &&& code != "M_UNKNOWN_TOKEN"@
            &&& code != "M_UNRECOGNIZED"@
            &&& code != "M_UNSUPPORTED_ROOM_VERSION"@
            &&& code != "M_URL_NOT_SET"@
            &&& code != "M_USER_DEACTIVATED"@
            &&& code != "M_USER_IN_USE"@
            &&& code != "M_USER_LOCKED"@
            &&& code != "M_USER_SUSPENDED"@
            &&& code != "M_WEAK_PASSWORD"@
            &&& code != "M_WRONG_ROOM_KEYS_VERSION"@
        }),
{
}

/// What a homeserver said with an error is handed on with its kind, each thing by its own name.
pub proof fn kinds_tell_what_the_homeserver_said(
    value: ApiErrorKind,
    now_ms: u64,
    kind: ErrorKind,
)
    requires
        call_ensures(
            ErrorKind::try_from,
            (value, now_ms),
            Ok::<ErrorKind, NotYetImplemented>(kind),
        ),
    ensures
        kind is BadStatus ==> kind == (ErrorKind::BadStatus {
            status: value.status,
            body: value.body,
        }),
        kind is IncompatibleRoomVersion ==> kind->room_version == value.room_version,
        kind is ResourceLimitExceeded ==> kind->admin_contact == value.admin_contact,
        kind is UnknownToken ==> kind->soft_logout == value.soft_logout,
        kind is WrongRoomKeysVersion ==> kind->current_version == value.current_version,
        kind is LimitExceeded && value.retry_after is None ==> kind->retry_after_ms is None,
        kind is LimitExceeded && value.retry_after is Some ==> match value.retry_after->0 {
            RetryAfter::Delay { millis } => millis <= u64::MAX ==> kind->retry_after_ms == Some(
                millis as u64,
            ),
            RetryAfter::DateTime { nanos } => kind->retry_after_ms is Some <==> nanos >= now_ms
                * 1_000_000,
        },
{
}

/// The time to wait for is the delay that was given, or what is left until the time that was
/// given, in full milliseconds; nothing where that has passed.
pub proof fn delays_are_what_is_left(millis: u64, now_ms: u64, left_ms: u64, rest: int, r: (Option<u64>, Option<u64>, Option<u64>))
    requires
        0 <= rest < 1_000_000,
        call_ensures(
            RetryAfter::delay_ms,
            (RetryAfter::Delay { millis: millis as u128 }, now_ms),
            r.0,
        ),
        call_ensures(
            RetryAfter::delay_ms,
            (
                RetryAfter::DateTime {
                    nanos: ((now_ms + left_ms) * 1_000_000 + rest) as i128,
                },
                now_ms,
            ),
            r.1,
        ),
        call_ensures(
            RetryAfter::delay_ms,
            (RetryAfter::DateTime { nanos: (now_ms * 1_000_000 - 1 - rest) as i128 }, now_ms),
            r.2,
        ),
    ensures
        r.0 == Some(millis),
        r.1 == Some(left_ms),
        r.2 is None,
{
    let left = left_ms * 1_000_000 + rest;
    assert((now_ms + left_ms) * 1_000_000 + rest - now_ms * 1_000_000 == left) by (nonlinear_arith)
        requires
            left == left_ms * 1_000_000 + rest,
    ;
    assert(left / 1_000_000 == left_ms) by (nonlinear_arith)
        requires
            left == left_ms * 1_000_000 + rest,
            0 <= rest < 1_000_000,
    ;
}

/// An error of the homeserver is told with its kind, its code and what it said; any other error
/// by its texts.
pub proof fn sdk_errors_are_told(error: SdkError, now_ms: u64, r: ClientError)
    requires
        call_ensures(ClientError::from_sdk_error, (error, now_ms), r),
    ensures
        r matches ClientError::MatrixApi { kind, code, msg, details } ==> {
            &&& error matches SdkError::Http { api_error: Some(api), .. }
            &&& details == Some(api.debug)
            &&& api.body matches ApiErrorBody::Standard { kind: api_kind, message }
            &&& code == api_kind.errcode
            &&& msg == message
        },
        r matches ClientError::Generic { msg, details } ==> match error {
            SdkError::Http { message, debug, .. } => msg@ == message@ && details == Some(debug),
            SdkError::Other { message, debug } => msg@ == message@ && details == Some(debug),
        },
        error is Other ==> r is Generic,
        error matches SdkError::Http { api_error, .. } ==> (r is MatrixApi ==> api_error is Some),
{
}

/// Errors are made of the texts that they are given, and shown by them.
pub proof fn errors_are_made_of_their_texts(
    text: &str,
    debug: String,
    details: Option<String>,
    r: (ClientError, ClientError, ClientError),
    shown: String,
)
    requires
        call_ensures(ClientError::from_str, (text, details), r.0),
        call_ensures(ClientError::from_err, (text, debug), r.1),
        call_ensures(ClientError::from_text, (text,), r.2),
        call_ensures(ClientError::to_string, (&r.0,), shown),
    ensures
        r.0 matches ClientError::Generic { msg, details: d } && msg@ == text@ && d == details,
        r.1 matches ClientError::Generic { msg, details: d } && msg@ == text@ && d == Some(debug),
        r.2 matches ClientError::Generic { msg, details: Some(d) } && msg@ == text@ && d@ == text@,
        shown@ == "client error: "@ + text@,
{
}

} // verus!
