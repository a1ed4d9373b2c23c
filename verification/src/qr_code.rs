//! Logging in with a QR code.

use vstd::prelude::*;

use crate::authentication::{
    has_redirect_uri, has_uris, metadata_of, pair_views, registrations_of, OidcConfiguration,
    RegistrationPlan,
};
use crate::text::{concat2, decimal, decimal_string};

verus! {

/// Who shows a QR code.
pub enum QrCodeModeData {
    /// A device that is logged in, at this server.
    Reciprocate { server_name: String },
    /// A device that wants to log in.
    Login,
}

/// What is in a QR code.
pub struct QrCodeData {
    pub mode_data: QrCodeModeData,
}

impl QrCodeData {
    /// The server of a device that is logged in. There is none in the QR code of a
    /// device that wants to log in.
    pub fn server_name(&self) -> (r: Option<String>)
        ensures
            r == (match self.mode_data {
                QrCodeModeData::Reciprocate { server_name } => Some(server_name),
                QrCodeModeData::Login => None,
            }),
    {
        match &self.mode_data {
            QrCodeModeData::Reciprocate { server_name } => Some(server_name.clone()),
            QrCodeModeData::Login => None,
        }
    }
}

/// A QR code could not be read.
pub enum QrCodeDecodeError {
    /// With the debug text of the error.
    Crypto { error: String },
}

impl QrCodeDecodeError {
    /// The text of the error.
    pub fn to_string(&self) -> (r: String)
        ensures
            r@ == "Error decoding QR code: "@ + self->error@,
    {
        match self {
            QrCodeDecodeError::Crypto { error } => {
                concat2("Error decoding QR code: ", error.as_str())
            },
        }
    }
}

/// What a user is told of a login that failed.
#[derive(Clone, Copy, Debug, PartialEq, Eq, Structural)]
pub enum HumanQrLoginError {
    LinkingNotSupported,
    Cancelled,
    Expired,
    ConnectionInsecure,
    Declined,
    Unknown,
    SlidingSyncNotAvailable,
    OidcMetadataInvalid,
    OtherDeviceNotSignedIn,
    CheckCodeAlreadySent,
    CheckCodeCannotBeSent,
    NotFound,
}

/// The text of an error of a login.
pub open spec fn login_error_text(error: HumanQrLoginError) -> Seq<char> {
    match error {
        HumanQrLoginError::LinkingNotSupported => "Linking with this device is not supported."@,
        HumanQrLoginError::Cancelled => "The sign in was cancelled."@,
        HumanQrLoginError::Expired => "The sign in was not completed in the required time."@,
        HumanQrLoginError::ConnectionInsecure =>
            "A secure connection could not have been established between the two devices."@,
        HumanQrLoginError::Declined => "The sign in was declined."@,
        HumanQrLoginError::Unknown => "An unknown error has happened."@,
        HumanQrLoginError::SlidingSyncNotAvailable =>
            "The homeserver doesn't provide sliding sync in its configuration."@,
        HumanQrLoginError::OidcMetadataInvalid =>
            "Unable to use OIDC as the supplied client metadata is invalid."@,
        HumanQrLoginError::OtherDeviceNotSignedIn =>
            "The other device is not signed in and as such can't sign in other devices."@,
        HumanQrLoginError::CheckCodeAlreadySent => "The check code was already sent."@,
        HumanQrLoginError::CheckCodeCannotBeSent => "The check code could not be sent."@,
        HumanQrLoginError::NotFound =>
            "The rendezvous session was not found and might have expired"@,
    }
}

impl HumanQrLoginError {
    /// The text of the error.
    pub fn to_string(&self) -> (r: String)
        ensures
            r@ == login_error_text(*self),
    {
        let text: &'static str = match self {
            HumanQrLoginError::LinkingNotSupported => "Linking with this device is not supported.",
            HumanQrLoginError::Cancelled => "The sign in was cancelled.",
            HumanQrLoginError::Expired => "The sign in was not completed in the required time.",
            HumanQrLoginError::ConnectionInsecure => {
                "A secure connection could not have been established between the two devices."
            },
            HumanQrLoginError::Declined => "The sign in was declined.",
            HumanQrLoginError::Unknown => "An unknown error has happened.",
            HumanQrLoginError::SlidingSyncNotAvailable => {
                "The homeserver doesn't provide sliding sync in its configuration."
            },
            HumanQrLoginError::OidcMetadataInvalid => {
                "Unable to use OIDC as the supplied client metadata is invalid."
            },
            HumanQrLoginError::OtherDeviceNotSignedIn => {
                "The other device is not signed in and as such can't sign in other devices."
            },
            HumanQrLoginError::CheckCodeAlreadySent => "The check code was already sent.",
            HumanQrLoginError::CheckCodeCannotBeSent => "The check code could not be sent.",
            HumanQrLoginError::NotFound => {
                "The rendezvous session was not found and might have expired"
            },
        };
        text.to_owned()
    }
}

/// Why the other device ended a login.
#[derive(Clone, Copy, Debug, PartialEq, Eq, Structural)]
pub enum LoginFailureReason {
    UnsupportedProtocol,
    AuthorizationExpired,
    UserCancelled,
    Other,
}

/// What the authorization server said to a device code.
#[derive(Clone, Copy, Debug, PartialEq, Eq, Structural)]
pub enum DeviceCodeError {
    AccessDenied,
    ExpiredToken,
    Other,
}

/// What went wrong with the secure channel.
#[derive(Clone, Copy, Debug, PartialEq, Eq, Structural)]
pub enum SecureChannelError {
    Utf8,
    MessageDecode,
    Json,
    RendezvousChannel,
    SecureChannelMessage,
    Ecies,
    InvalidCheckCode,
    CannotReceiveCheckCode,
    InvalidIntent,
}

/// Why a login failed.
#[derive(Clone, Copy, Debug, PartialEq, Eq, Structural)]
pub enum QrCodeLoginError {
    /// The other device ended the login.
    LoginFailure { reason: LoginFailureReason },
    /// OAuth 2.0 failed; what the authorization server said to the device code, if
    /// that is what failed.
    OAuth { error: Option<DeviceCodeError> },
    SecureChannel { error: SecureChannelError },
    UnexpectedMessage,
    CrossProcessRefreshLock,
    DeviceKeyUpload,
    SessionTokens,
    UserIdDiscovery,
    SecretImport,
    ServerReset,
    NotFound,
}

/// What a user is told of a login that failed.
pub open spec fn human_login_error(error: QrCodeLoginError) -> HumanQrLoginError {
    match error {
        QrCodeLoginError::LoginFailure { reason: LoginFailureReason::UnsupportedProtocol } =>
            HumanQrLoginError::LinkingNotSupported,
        QrCodeLoginError::LoginFailure { reason: LoginFailureReason::AuthorizationExpired } =>
            HumanQrLoginError::Expired,
        QrCodeLoginError::LoginFailure { reason: LoginFailureReason::UserCancelled } =>
            HumanQrLoginError::Cancelled,
        QrCodeLoginError::OAuth { error: Some(DeviceCodeError::AccessDenied) } =>
            HumanQrLoginError::Declined,
        QrCodeLoginError::OAuth { error: Some(DeviceCodeError::ExpiredToken) } =>
            HumanQrLoginError::Expired,
        QrCodeLoginError::SecureChannel { error } => if breaks_security(error) {
            HumanQrLoginError::ConnectionInsecure
        } else if error == SecureChannelError::InvalidIntent {
            HumanQrLoginError::OtherDeviceNotSignedIn
        } else {
            HumanQrLoginError::Unknown
        },
        QrCodeLoginError::NotFound => HumanQrLoginError::NotFound,
        _ => HumanQrLoginError::Unknown,
    }
}

/// Whether an error of the channel means that it may not be secure.
pub open spec fn breaks_security(error: SecureChannelError) -> bool {
    error == SecureChannelError::SecureChannelMessage || error == SecureChannelError::Ecies || error
        == SecureChannelError::InvalidCheckCode || error
        == SecureChannelError::CannotReceiveCheckCode
}

/// Why a check code was not sent.
#[derive(Clone, Copy, Debug, PartialEq, Eq, Structural)]
pub enum CheckCodeSenderError {
    AlreadySent,
    CannotSend,
}

impl HumanQrLoginError {
    /// What a user is told of a login that failed.
    pub fn from(value: QrCodeLoginError) -> (r: HumanQrLoginError)
        ensures
            r == human_login_error(value),
    {
        match value {
            QrCodeLoginError::LoginFailure { reason } => match reason {
                LoginFailureReason::UnsupportedProtocol => HumanQrLoginError::LinkingNotSupported,
                LoginFailureReason::AuthorizationExpired => HumanQrLoginError::Expired,
                LoginFailureReason::UserCancelled => HumanQrLoginError::Cancelled,
                LoginFailureReason::Other => HumanQrLoginError::Unknown,
            },
            QrCodeLoginError::OAuth { error } => match error {
                Some(DeviceCodeError::AccessDenied) => HumanQrLoginError::Declined,
                Some(DeviceCodeError::ExpiredToken) => HumanQrLoginError::Expired,
                Some(DeviceCodeError::Other) => HumanQrLoginError::Unknown,
                None => HumanQrLoginError::Unknown,
            },
            QrCodeLoginError::SecureChannel { error } => match error {
                SecureChannelError::Utf8 => HumanQrLoginError::Unknown,
                SecureChannelError::MessageDecode => HumanQrLoginError::Unknown,
                SecureChannelError::Json => HumanQrLoginError::Unknown,
                SecureChannelError::RendezvousChannel => HumanQrLoginError::Unknown,
                SecureChannelError::SecureChannelMessage => HumanQrLoginError::ConnectionInsecure,
                SecureChannelError::Ecies => HumanQrLoginError::ConnectionInsecure,
                SecureChannelError::InvalidCheckCode => HumanQrLoginError::ConnectionInsecure,
                SecureChannelError::CannotReceiveCheckCode => HumanQrLoginError::ConnectionInsecure,
                SecureChannelError::InvalidIntent => HumanQrLoginError::OtherDeviceNotSignedIn,
            },
            QrCodeLoginError::UnexpectedMessage => HumanQrLoginError::Unknown,
            QrCodeLoginError::CrossProcessRefreshLock => HumanQrLoginError::Unknown,
            QrCodeLoginError::DeviceKeyUpload => HumanQrLoginError::Unknown,
            QrCodeLoginError::SessionTokens => HumanQrLoginError::Unknown,
            QrCodeLoginError::UserIdDiscovery => HumanQrLoginError::Unknown,
            QrCodeLoginError::SecretImport => HumanQrLoginError::Unknown,
            QrCodeLoginError::ServerReset => HumanQrLoginError::Unknown,
            QrCodeLoginError::NotFound => HumanQrLoginError::NotFound,
        }
    }

    /// What a user is told of a check code that was not sent.
    pub fn from_check_code_error(value: CheckCodeSenderError) -> (r: HumanQrLoginError)
        ensures
            r == match value {
                CheckCodeSenderError::AlreadySent => HumanQrLoginError::CheckCodeAlreadySent,
                CheckCodeSenderError::CannotSend => HumanQrLoginError::CheckCodeCannotBeSent,
            },
    {
        match value {
            CheckCodeSenderError::AlreadySent => HumanQrLoginError::CheckCodeAlreadySent,
            CheckCodeSenderError::CannotSend => HumanQrLoginError::CheckCodeCannotBeSent,
        }
    }
}

/// The registrations that a login with a QR code uses. Any URI that is not a URL
/// makes the metadata invalid.
pub fn login_registrations(configuration: &OidcConfiguration) -> (r: Result<
    RegistrationPlan,
    HumanQrLoginError,
>)
    ensures
        match r {
            Ok(plan) => {
                &&& plan.registrations_file == configuration.dynamic_registrations_file
                &&& metadata_of(*configuration, plan.client_metadata)
                &&& pair_views(plan.static_registrations@) == registrations_of(
                    configuration.static_registrations@,
                )
            },
            Err(error) => {
                &&& error == HumanQrLoginError::OidcMetadataInvalid
                &&& !(has_redirect_uri(*configuration) && has_uris(*configuration))
            },
        },
{
    match configuration.registrations() {
        Ok(plan) => Ok(plan),
        Err(_) => Err(HumanQrLoginError::OidcMetadataInvalid),
    }
}

/// What a user is told of a login that could not be granted.
pub enum HumanQrGrantLoginError {
    /// The device ID that the other device asked for is in use.
    DeviceIDAlreadyInUse,
    /// The check code was incorrect.
    InvalidCheckCode,
    /// The other device proposed a protocol that is not supported.
    UnsupportedProtocol(String),
    /// The backup of the secrets is not set up.
    MissingSecretsBackup(String),
    /// The rendezvous session was not found and might have expired.
    NotFound,
    /// The device could not be created.
    UnableToCreateDevice,
    /// Anything else.
    Unknown(String),
}

/// Why a login could not be granted.
pub enum QrCodeGrantLoginError {
    DeviceIDAlreadyInUse,
    InvalidCheckCode,
    UnableToCreateDevice,
    UnsupportedProtocol { protocol: String },
    /// With the text of the error, if there is one.
    MissingSecretsBackup { error: Option<String> },
    NotFound,
    Unknown { message: String },
}

impl HumanQrGrantLoginError {
    /// What a user is told of a login that could not be granted.
    pub fn from(value: QrCodeGrantLoginError) -> (r: HumanQrGrantLoginError)
        ensures
            match value {
                QrCodeGrantLoginError::DeviceIDAlreadyInUse => r is DeviceIDAlreadyInUse,
                QrCodeGrantLoginError::InvalidCheckCode => r is InvalidCheckCode,
                QrCodeGrantLoginError::UnableToCreateDevice => r is UnableToCreateDevice,
                QrCodeGrantLoginError::UnsupportedProtocol { protocol } => r
                    == HumanQrGrantLoginError::UnsupportedProtocol(protocol),
                QrCodeGrantLoginError::MissingSecretsBackup { error: Some(error) } => r
                    == HumanQrGrantLoginError::MissingSecretsBackup(error),
                QrCodeGrantLoginError::MissingSecretsBackup { error: None } => {
                    &&& r matches HumanQrGrantLoginError::MissingSecretsBackup(text)
                    &&& text@ == "other"@
                },
                QrCodeGrantLoginError::NotFound => r is NotFound,
                QrCodeGrantLoginError::Unknown { message } => r == HumanQrGrantLoginError::Unknown(
                    message,
                ),
            },
    {
        match value {
            QrCodeGrantLoginError::DeviceIDAlreadyInUse => {
                HumanQrGrantLoginError::DeviceIDAlreadyInUse
            },
            QrCodeGrantLoginError::InvalidCheckCode => HumanQrGrantLoginError::InvalidCheckCode,
            QrCodeGrantLoginError::UnableToCreateDevice => {
                HumanQrGrantLoginError::UnableToCreateDevice
            },
            QrCodeGrantLoginError::UnsupportedProtocol { protocol } => {
                HumanQrGrantLoginError::UnsupportedProtocol(protocol)
            },
            QrCodeGrantLoginError::MissingSecretsBackup { error } => {
                HumanQrGrantLoginError::MissingSecretsBackup(
                    match error {
                        Some(error) => error,
                        None => "other".to_owned(),
                    },
                )
            },
            QrCodeGrantLoginError::NotFound => HumanQrGrantLoginError::NotFound,
            QrCodeGrantLoginError::Unknown { message } => HumanQrGrantLoginError::Unknown(message),
        }
    }

    /// The text of the error.
    pub fn to_string(&self) -> (r: String)
        ensures
            r@ == match *self {
                HumanQrGrantLoginError::DeviceIDAlreadyInUse =>
                    "The requested device ID is already in use."@,
                HumanQrGrantLoginError::InvalidCheckCode => "The check code was incorrect."@,
                HumanQrGrantLoginError::UnsupportedProtocol(protocol) => "Unsupported protocol: "@
                    + protocol@,
                HumanQrGrantLoginError::MissingSecretsBackup(error) =>
                    "Secrets backup not set up: "@ + error@,
                HumanQrGrantLoginError::NotFound =>
                    "The rendezvous session was not found and might have expired"@,
                HumanQrGrantLoginError::UnableToCreateDevice => "The device could not be created."@,
                HumanQrGrantLoginError::Unknown(_) => "An unknown error has happened."@,
            },
    {
        match self {
            HumanQrGrantLoginError::DeviceIDAlreadyInUse => {
                "The requested device ID is already in use.".to_owned()
            },
            HumanQrGrantLoginError::InvalidCheckCode => "The check code was incorrect.".to_owned(),
            HumanQrGrantLoginError::UnsupportedProtocol(protocol) => {
                concat2("Unsupported protocol: ", protocol.as_str())
            },
            HumanQrGrantLoginError::MissingSecretsBackup(error) => {
                concat2("Secrets backup not set up: ", error.as_str())
            },
            HumanQrGrantLoginError::NotFound => {
                "The rendezvous session was not found and might have expired".to_owned()
            },
            HumanQrGrantLoginError::UnableToCreateDevice => {
                "The device could not be created.".to_owned()
            },
            HumanQrGrantLoginError::Unknown(_) => "An unknown error has happened.".to_owned(),
        }
    }
}

/// The digits of a check code: at least two, with a leading zero where it takes
/// one.
pub open spec fn check_code_text(check_code: u8) -> Seq<char> {
    if check_code < 10 {
        "0"@ + decimal(check_code as nat)
    } else {
        decimal(check_code as nat)
    }
}

/// The digits of a check code.
pub fn check_code_string(check_code: u8) -> (r: String)
    ensures
        r@ == check_code_text(check_code),
{
    let digits: String = decimal_string(check_code as u64);
    if check_code < 10 {
        concat2("0", digits.as_str())
    } else {
        digits
    }
}

/// A check code of two digits is two characters long, and its digits are those of
/// the code: no two codes look the same.
pub proof fn check_code_has_two_characters(check_code: u8)
    requires
        check_code < 100,
    ensures
        check_code_text(check_code) == seq![
            crate::text::digit((check_code / 10) as nat),
            crate::text::digit((check_code % 10) as nat),
        ],
{
    reveal_strlit("0");
    reveal_with_fuel(decimal, 3);
    let high = (check_code / 10) as nat;
    let low = (check_code % 10) as nat;
    if check_code < 10 {
        assert(check_code_text(check_code) =~= seq![crate::text::digit(high), crate::text::digit(low)]);
    } else {
        assert(decimal(high) =~= seq![crate::text::digit(high)]);
        assert(check_code_text(check_code) =~= seq![crate::text::digit(high), crate::text::digit(low)]);
    }
}

/// How far a login is, on the device that scanned the QR code of another one.
pub enum QrLoginProgress {
    Starting,
    /// There is a secure channel; the other device has to be told the check code.
    EstablishingSecureChannel { check_code: u8, check_code_string: String },
    /// The authorization server is yet to give an access token.
    WaitingForToken { user_code: String },
    SyncingSecrets,
    Done,
}

/// Told how far a login is.
pub trait QrLoginProgressListener {
    fn on_update(&self, state: QrLoginProgress);
}

/// How far a login is, as the SDK says it.
pub enum LoginProgress<P> {
    Starting,
    EstablishingSecureChannel(P),
    WaitingForToken { user_code: String },
    SyncingSecrets,
    Done,
}

/// How far a grant of a login is, as the SDK says it.
pub enum GrantLoginProgress<P> {
    Starting,
    EstablishingSecureChannel(P),
    WaitingForAuth { verification_uri: String },
    SyncingSecrets,
    Done,
}

/// The step of a device that scanned a QR code.
#[derive(Clone, Copy)]
pub struct QrProgress {
    pub check_code: u8,
}

/// The step of a device that shows a QR code.
pub enum GeneratedQrProgress<Q, S> {
    QrReady(Q),
    QrScanned(S),
}

impl QrLoginProgress {
    /// How far a login is.
    pub fn from(value: LoginProgress<QrProgress>) -> (r: QrLoginProgress)
        ensures
            match value {
                LoginProgress::Starting => r is Starting,
                LoginProgress::EstablishingSecureChannel(progress) => {
                    &&& r matches QrLoginProgress::EstablishingSecureChannel {
                        check_code,
                        check_code_string,
                    }
                    &&& check_code == progress.check_code
                    &&& check_code_string@ == check_code_text(progress.check_code)
                },
                LoginProgress::WaitingForToken { user_code } => r
                    == QrLoginProgress::WaitingForToken { user_code },
                LoginProgress::SyncingSecrets => r is SyncingSecrets,
                LoginProgress::Done => r is Done,
            },
    {
        match value {
            LoginProgress::Starting => QrLoginProgress::Starting,
            LoginProgress::EstablishingSecureChannel(progress) => {
                QrLoginProgress::EstablishingSecureChannel {
                    check_code: progress.check_code,
                    check_code_string: check_code_string(progress.check_code),
                }
            },
            LoginProgress::WaitingForToken { user_code } => QrLoginProgress::WaitingForToken {
                user_code,
            },
            LoginProgress::SyncingSecrets => QrLoginProgress::SyncingSecrets,
            LoginProgress::Done => QrLoginProgress::Done,
        }
    }
}

/// How far a login is, on the device that shows a QR code. `Q` is the QR code, and
/// `S` takes the check code.
pub enum GeneratedQrLoginProgress<Q, S> {
    Starting,
    /// The QR code is there to be shown.
    QrReady { qr_code: Q },
    /// The other device scanned the QR code and shows the check code, which the
    /// user has to enter.
    QrScanned { check_code_sender: S },
    /// The authorization server is yet to give an access token.
    WaitingForToken { user_code: String },
    SyncingSecrets,
    Done,
}

/// Told how far a login is.
pub trait GeneratedQrLoginProgressListener<Q, S> {
    fn on_update(&self, state: GeneratedQrLoginProgress<Q, S>);
}

impl<Q, S> GeneratedQrLoginProgress<Q, S> {
    /// How far a login is.
    pub fn from(value: LoginProgress<GeneratedQrProgress<Q, S>>) -> (r: Self)
        ensures
            r == match value {
                LoginProgress::Starting => GeneratedQrLoginProgress::<Q, S>::Starting,
                LoginProgress::EstablishingSecureChannel(GeneratedQrProgress::QrReady(qr_code)) =>
                    GeneratedQrLoginProgress::QrReady { qr_code },
                LoginProgress::EstablishingSecureChannel(
                    GeneratedQrProgress::QrScanned(check_code_sender),
                ) => GeneratedQrLoginProgress::QrScanned { check_code_sender },
                LoginProgress::WaitingForToken { user_code } =>
                    GeneratedQrLoginProgress::WaitingForToken { user_code },
                LoginProgress::SyncingSecrets => GeneratedQrLoginProgress::SyncingSecrets,
                LoginProgress::Done => GeneratedQrLoginProgress::Done,
            },
    {
        match value {
            LoginProgress::Starting => GeneratedQrLoginProgress::Starting,
            LoginProgress::EstablishingSecureChannel(GeneratedQrProgress::QrReady(qr_code)) => {
                GeneratedQrLoginProgress::QrReady { qr_code }
            },
            LoginProgress::EstablishingSecureChannel(
                GeneratedQrProgress::QrScanned(check_code_sender),
            ) => GeneratedQrLoginProgress::QrScanned { check_code_sender },
            LoginProgress::WaitingForToken { user_code } => {
                GeneratedQrLoginProgress::WaitingForToken { user_code }
            },
            LoginProgress::SyncingSecrets => GeneratedQrLoginProgress::SyncingSecrets,
            LoginProgress::Done => GeneratedQrLoginProgress::Done,
        }
    }
}

/// How far a grant of a login is, on the device that scanned the QR code of another
/// one.
pub enum GrantQrLoginProgress {
    Starting,
    /// There is a secure channel; the other device has to be told the check code.
    EstablishingSecureChannel { check_code: u8, check_code_string: String },
    /// The user is yet to confirm the login, at this URI.
    WaitingForAuth { verification_uri: String },
    SyncingSecrets,
    Done,
}

/// Told how far a grant of a login is.
pub trait GrantQrLoginProgressListener {
    fn on_update(&self, state: GrantQrLoginProgress);
}

impl GrantQrLoginProgress {
    /// How far a grant of a login is.
    pub fn from(value: GrantLoginProgress<QrProgress>) -> (r: GrantQrLoginProgress)
        ensures
            match value {
                GrantLoginProgress::Starting => r is Starting,
                GrantLoginProgress::EstablishingSecureChannel(progress) => {
                    &&& r matches GrantQrLoginProgress::EstablishingSecureChannel {
                        check_code,
                        check_code_string,
                    }
                    &&& check_code == progress.check_code
                    &&& check_code_string@ == check_code_text(progress.check_code)
                },
                GrantLoginProgress::WaitingForAuth { verification_uri } => r
                    == GrantQrLoginProgress::WaitingForAuth { verification_uri },
                GrantLoginProgress::SyncingSecrets => r is SyncingSecrets,
                GrantLoginProgress::Done => r is Done,
            },
    {
        match value {
            GrantLoginProgress::Starting => GrantQrLoginProgress::Starting,
            GrantLoginProgress::EstablishingSecureChannel(progress) => {
                GrantQrLoginProgress::EstablishingSecureChannel {
                    check_code: progress.check_code,
                    check_code_string: check_code_string(progress.check_code),
                }
            },
            GrantLoginProgress::WaitingForAuth { verification_uri } => {
                GrantQrLoginProgress::WaitingForAuth { verification_uri }
            },
            GrantLoginProgress::SyncingSecrets => GrantQrLoginProgress::SyncingSecrets,
            GrantLoginProgress::Done => GrantQrLoginProgress::Done,
        }
    }
}

/// How far a grant of a login is, on the device that shows a QR code. `Q` is the QR
/// code, and `S` takes the check code.
pub enum GrantGeneratedQrLoginProgress<Q, S> {
    Starting,
    /// The QR code is there to be shown.
    QrReady { qr_code: Q },
    /// The other device scanned the QR code and shows the check code, which the
    /// user has to enter.
    QrScanned { check_code_sender: S },
    /// The user is yet to confirm the login, at this URI.
    WaitingForAuth { verification_uri: String },
    SyncingSecrets,
    Done,
}

/// Told how far a grant of a login is.
pub trait GrantGeneratedQrLoginProgressListener<Q, S> {
    fn on_update(&self, state: GrantGeneratedQrLoginProgress<Q, S>);
}

impl<Q, S> GrantGeneratedQrLoginProgress<Q, S> {
    /// How far a grant of a login is.
    pub fn from(value: GrantLoginProgress<GeneratedQrProgress<Q, S>>) -> (r: Self)
        ensures
            r == match value {
                GrantLoginProgress::Starting => GrantGeneratedQrLoginProgress::<Q, S>::Starting,
                GrantLoginProgress::EstablishingSecureChannel(
                    GeneratedQrProgress::QrReady(qr_code),
                ) => GrantGeneratedQrLoginProgress::QrReady { qr_code },
                GrantLoginProgress::EstablishingSecureChannel(
                    GeneratedQrProgress::QrScanned(check_code_sender),
                ) => GrantGeneratedQrLoginProgress::QrScanned { check_code_sender },
                GrantLoginProgress::WaitingForAuth { verification_uri } =>
                    GrantGeneratedQrLoginProgress::WaitingForAuth { verification_uri },
                GrantLoginProgress::SyncingSecrets => GrantGeneratedQrLoginProgress::SyncingSecrets,
                GrantLoginProgress::Done => GrantGeneratedQrLoginProgress::Done,
            },
    {
        match value {
            GrantLoginProgress::Starting => GrantGeneratedQrLoginProgress::Starting,
            GrantLoginProgress::EstablishingSecureChannel(
                GeneratedQrProgress::QrReady(qr_code),
            ) => GrantGeneratedQrLoginProgress::QrReady { qr_code },
            GrantLoginProgress::EstablishingSecureChannel(
                GeneratedQrProgress::QrScanned(check_code_sender),
            ) => GrantGeneratedQrLoginProgress::QrScanned { check_code_sender },
            GrantLoginProgress::WaitingForAuth { verification_uri } => {
                GrantGeneratedQrLoginProgress::WaitingForAuth { verification_uri }
            },
            GrantLoginProgress::SyncingSecrets => GrantGeneratedQrLoginProgress::SyncingSecrets,
            GrantLoginProgress::Done => GrantGeneratedQrLoginProgress::Done,
        }
    }
}

/// What went wrong with a login is told in the words for it: a connection that is not secure as
/// such whatever broke it, time that ran out as such wherever it did, and all that says nothing
/// to a user as unknown.
pub proof fn login_errors_are_told(error: QrCodeLoginError, r: HumanQrLoginError)
    requires
        call_ensures(HumanQrLoginError::from, (error,), r),
    ensures
        r is LinkingNotSupported <==> error == (QrCodeLoginError::LoginFailure {
            reason: LoginFailureReason::UnsupportedProtocol,
        }),
        r is Cancelled <==> error == (QrCodeLoginError::LoginFailure {
            reason: LoginFailureReason::UserCancelled,
        }),
        r is Expired <==> error == (QrCodeLoginError::LoginFailure {
            reason: LoginFailureReason::AuthorizationExpired,
        }) || error == (QrCodeLoginError::OAuth { error: Some(DeviceCodeError::ExpiredToken) }),
        r is Declined <==> error == (QrCodeLoginError::OAuth {
            error: Some(DeviceCodeError::AccessDenied),
        }),
        r is ConnectionInsecure <==> (error matches QrCodeLoginError::SecureChannel { error }
            && (error is SecureChannelMessage || error is Ecies || error is InvalidCheckCode
            || error is CannotReceiveCheckCode)),
        r is OtherDeviceNotSignedIn <==> error == (QrCodeLoginError::SecureChannel {
            error: SecureChannelError::InvalidIntent,
        }),
        r is NotFound <==> error is NotFound,
        !(r is SlidingSyncNotAvailable || r is OidcMetadataInvalid || r is CheckCodeAlreadySent
            || r is CheckCodeCannotBeSent),
{
}

/// What went wrong with granting a login is told as what it is, with its text.
pub proof fn grant_errors_are_told(error: QrCodeGrantLoginError, r: HumanQrGrantLoginError)
    requires
        call_ensures(HumanQrGrantLoginError::from, (error,), r),
    ensures
        r is DeviceIDAlreadyInUse <==> error is DeviceIDAlreadyInUse,
        r is InvalidCheckCode <==> error is InvalidCheckCode,
        r is UnableToCreateDevice <==> error is UnableToCreateDevice,
        r is NotFound <==> error is NotFound,
        error matches QrCodeGrantLoginError::UnsupportedProtocol { protocol } ==> r
            == HumanQrGrantLoginError::UnsupportedProtocol(protocol),
        error matches QrCodeGrantLoginError::MissingSecretsBackup { error } ==> (
        r is MissingSecretsBackup && (error is Some ==> r
            == HumanQrGrantLoginError::MissingSecretsBackup(error->0))),
        error matches QrCodeGrantLoginError::Unknown { message } ==> r
            == HumanQrGrantLoginError::Unknown(message),
{
}

/// The progress of a login, or of granting one, is told step for step, with the code that both
/// devices show.
pub proof fn qr_progress_is_told<Q, S>(
    value: LoginProgress<QrProgress>,
    r: QrLoginProgress,
    grant: GrantLoginProgress<QrProgress>,
    g: GrantQrLoginProgress,
    made: LoginProgress<GeneratedQrProgress<Q, S>>,
    m: GeneratedQrLoginProgress<Q, S>,
)
    requires
        call_ensures(QrLoginProgress::from, (value,), r),
        call_ensures(GrantQrLoginProgress::from, (grant,), g),
        call_ensures(GeneratedQrLoginProgress::<Q, S>::from, (made,), m),
    ensures
        r is Starting <==> value is Starting,
        r is SyncingSecrets <==> value is SyncingSecrets,
        r is Done <==> value is Done,
        value matches LoginProgress::EstablishingSecureChannel(progress) ==> (
        r is EstablishingSecureChannel && r->check_code == progress.check_code),
        value matches LoginProgress::WaitingForToken { user_code } ==> r
            == (QrLoginProgress::WaitingForToken { user_code }),
        g is Starting <==> grant is Starting,
        g is SyncingSecrets <==> grant is SyncingSecrets,
        g is Done <==> grant is Done,
        grant matches GrantLoginProgress::EstablishingSecureChannel(progress) ==> (
        g is EstablishingSecureChannel && g->check_code == progress.check_code),
        grant matches GrantLoginProgress::WaitingForAuth { verification_uri } ==> g
            == (GrantQrLoginProgress::WaitingForAuth { verification_uri }),
        m is Starting <==> made is Starting,
        m is SyncingSecrets <==> made is SyncingSecrets,
        m is Done <==> made is Done,
        made matches LoginProgress::WaitingForToken { user_code } ==> m
            == (GeneratedQrLoginProgress::<Q, S>::WaitingForToken { user_code }),
        made matches LoginProgress::EstablishingSecureChannel(step) ==> match step {
            GeneratedQrProgress::QrReady(qr_code) => m
                == (GeneratedQrLoginProgress::<Q, S>::QrReady { qr_code }),
            GeneratedQrProgress::QrScanned(sender) => m
                == (GeneratedQrLoginProgress::<Q, S>::QrScanned { check_code_sender: sender }),
        },
{
}

/// The server of a code is told where the code is one of a device that is signed in.
pub proof fn servers_of_codes_are_told(code: QrCodeData, r: Option<String>)
    requires
        call_ensures(QrCodeData::server_name, (&code,), r),
    ensures
        r is Some <==> code.mode_data is Reciprocate,
        r is Some ==> code.mode_data->server_name == r->0,
{
}

/// The check code is told by its two digits, and a code that was not sent by what kept it.
pub proof fn check_codes_are_told(
    code: u8,
    r: String,
    already: HumanQrLoginError,
    cannot: HumanQrLoginError,
)
    requires
        call_ensures(check_code_string, (code,), r),
        call_ensures(
            HumanQrLoginError::from_check_code_error,
            (CheckCodeSenderError::AlreadySent,),
            already,
        ),
        call_ensures(
            HumanQrLoginError::from_check_code_error,
            (CheckCodeSenderError::CannotSend,),
            cannot,
        ),
    ensures
        code >= 10 ==> r@ == decimal(code as nat),
        code < 10 ==> r@ == seq!['0'] + decimal(code as nat),
        already is CheckCodeAlreadySent && cannot is CheckCodeCannotBeSent,
{
    reveal_strlit("0");
    assert("0"@ =~= seq!['0']);
}

/// The progress of granting a login with a code that was made here is told step for step.
pub proof fn grant_progress_is_told<Q, S>(
    value: GrantLoginProgress<GeneratedQrProgress<Q, S>>,
    r: GrantGeneratedQrLoginProgress<Q, S>,
)
    requires
        call_ensures(GrantGeneratedQrLoginProgress::<Q, S>::from, (value,), r),
    ensures
        r is Starting <==> value is Starting,
        r is SyncingSecrets <==> value is SyncingSecrets,
        r is Done <==> value is Done,
        value matches GrantLoginProgress::WaitingForAuth { verification_uri } ==> r
            == (GrantGeneratedQrLoginProgress::<Q, S>::WaitingForAuth { verification_uri }),
        value matches GrantLoginProgress::EstablishingSecureChannel(step) ==> match step {
            GeneratedQrProgress::QrReady(qr_code) => r
                == (GrantGeneratedQrLoginProgress::<Q, S>::QrReady { qr_code }),
            GeneratedQrProgress::QrScanned(sender) => r
                == (GrantGeneratedQrLoginProgress::<Q, S>::QrScanned {
                check_code_sender: sender,
            }),
        },
{
}

} // verus!
