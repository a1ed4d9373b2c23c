use matrix_sdk_ffi::authentication::OidcConfiguration;
use matrix_sdk_ffi::qr_code::{
    check_code_string, login_registrations, CheckCodeSenderError, DeviceCodeError,
    GeneratedQrLoginProgress, GeneratedQrProgress, GrantGeneratedQrLoginProgress,
    GrantLoginProgress, GrantQrLoginProgress, HumanQrGrantLoginError, HumanQrLoginError,
    LoginFailureReason, LoginProgress, QrCodeData, QrCodeDecodeError, QrCodeGrantLoginError,
    QrCodeLoginError, QrCodeModeData, QrLoginProgress, QrProgress, SecureChannelError,
};

#[test]
fn check_codes_have_two_digits() {
    for code in 0..=99u8 {
        assert_eq!(check_code_string(code), format!("{code:02}"));
    }
    assert_eq!(check_code_string(123), "123");
}

#[test]
fn codes_name_the_server() {
    let data = QrCodeData {
        mode_data: QrCodeModeData::Reciprocate { server_name: "https://b.c".to_owned() },
    };
    assert_eq!(data.server_name().as_deref(), Some("https://b.c"));
    assert_eq!(QrCodeData { mode_data: QrCodeModeData::Login }.server_name(), None);
    let error = QrCodeDecodeError::Crypto { error: "odd".to_owned() };
    assert_eq!(error.to_string(), "Error decoding QR code: odd");
}

#[test]
fn login_errors_for_humans() {
    let reason = |reason| QrCodeLoginError::LoginFailure { reason };
    let channel = |error| QrCodeLoginError::SecureChannel { error };
    for (error, human) in [
        (reason(LoginFailureReason::UnsupportedProtocol), HumanQrLoginError::LinkingNotSupported),
        (reason(LoginFailureReason::AuthorizationExpired), HumanQrLoginError::Expired),
        (reason(LoginFailureReason::UserCancelled), HumanQrLoginError::Cancelled),
        (reason(LoginFailureReason::Other), HumanQrLoginError::Unknown),
        (
            QrCodeLoginError::OAuth { error: Some(DeviceCodeError::AccessDenied) },
            HumanQrLoginError::Declined,
        ),
        (
            QrCodeLoginError::OAuth { error: Some(DeviceCodeError::ExpiredToken) },
            HumanQrLoginError::Expired,
        ),
        (
            QrCodeLoginError::OAuth { error: Some(DeviceCodeError::Other) },
            HumanQrLoginError::Unknown,
        ),
        (QrCodeLoginError::OAuth { error: None }, HumanQrLoginError::Unknown),
        (channel(SecureChannelError::Utf8), HumanQrLoginError::Unknown),
        (
            channel(SecureChannelError::SecureChannelMessage),
            HumanQrLoginError::ConnectionInsecure,
        ),
        (channel(SecureChannelError::Ecies), HumanQrLoginError::ConnectionInsecure),
        (channel(SecureChannelError::InvalidCheckCode), HumanQrLoginError::ConnectionInsecure),
        (
            channel(SecureChannelError::InvalidIntent),
            HumanQrLoginError::OtherDeviceNotSignedIn,
        ),
        (QrCodeLoginError::UnexpectedMessage, HumanQrLoginError::Unknown),
        (QrCodeLoginError::NotFound, HumanQrLoginError::NotFound),
    ] {
        assert_eq!(HumanQrLoginError::from(error), human);
    }
    assert_eq!(
        HumanQrLoginError::from_check_code_error(CheckCodeSenderError::AlreadySent),
        HumanQrLoginError::CheckCodeAlreadySent
    );
    assert_eq!(
        HumanQrLoginError::from_check_code_error(CheckCodeSenderError::CannotSend),
        HumanQrLoginError::CheckCodeCannotBeSent
    );
    assert_eq!(
        HumanQrLoginError::NotFound.to_string(),
        "The rendezvous session was not found and might have expired"
    );
    assert_eq!(HumanQrLoginError::Declined.to_string(), "The sign in was declined.");
}

#[test]
fn grant_errors_for_humans() {
    let text = |error| HumanQrGrantLoginError::from(error).to_string();
    assert_eq!(
        text(QrCodeGrantLoginError::UnsupportedProtocol { protocol: "p".to_owned() }),
        "Unsupported protocol: p"
    );
    assert_eq!(
        text(QrCodeGrantLoginError::MissingSecretsBackup { error: Some("e".to_owned()) }),
        "Secrets backup not set up: e"
    );
    assert_eq!(
        text(QrCodeGrantLoginError::InvalidCheckCode),
        "The check code was incorrect."
    );
    assert_eq!(
        text(QrCodeGrantLoginError::DeviceIDAlreadyInUse),
        "The requested device ID is already in use."
    );
    assert_eq!(
        text(QrCodeGrantLoginError::UnableToCreateDevice),
        "The device could not be created."
    );
    assert_eq!(
        text(QrCodeGrantLoginError::Unknown { message: "m".to_owned() }),
        "An unknown error has happened."
    );
    assert!(matches!(
        HumanQrGrantLoginError::from(QrCodeGrantLoginError::Unknown { message: "m".to_owned() }),
        HumanQrGrantLoginError::Unknown(ref message) if message == "m"
    ));
}

#[test]
fn progress_is_told() {
    match QrLoginProgress::from(LoginProgress::EstablishingSecureChannel(QrProgress {
        check_code: 7,
    })) {
        QrLoginProgress::EstablishingSecureChannel { check_code, check_code_string } => {
            assert_eq!(check_code, 7);
            assert_eq!(check_code_string, "07");
        }
        _ => panic!(),
    }
    assert!(matches!(
        QrLoginProgress::from(LoginProgress::WaitingForToken { user_code: "u".to_owned() }),
        QrLoginProgress::WaitingForToken { ref user_code } if user_code == "u"
    ));
    assert!(matches!(QrLoginProgress::from(LoginProgress::Done), QrLoginProgress::Done));

    let ready: LoginProgress<GeneratedQrProgress<&str, u8>> =
        LoginProgress::EstablishingSecureChannel(GeneratedQrProgress::QrReady("q"));
    assert!(matches!(
        GeneratedQrLoginProgress::from(ready),
        GeneratedQrLoginProgress::QrReady { qr_code: "q" }
    ));
    let scanned: GrantLoginProgress<GeneratedQrProgress<&str, u8>> =
        GrantLoginProgress::EstablishingSecureChannel(GeneratedQrProgress::QrScanned(5));
    assert!(matches!(
        GrantGeneratedQrLoginProgress::from(scanned),
        GrantGeneratedQrLoginProgress::QrScanned { check_code_sender: 5 }
    ));
    assert!(matches!(
        GrantQrLoginProgress::from(GrantLoginProgress::WaitingForAuth {
            verification_uri: "v".to_owned()
        }),
        GrantQrLoginProgress::WaitingForAuth { ref verification_uri } if verification_uri == "v"
    ));
}

#[test]
fn logins_need_metadata() {
    let configuration = |client_uri: &str| OidcConfiguration {
        client_name: None,
        redirect_uri: "io.element:/callback".to_owned(),
        client_uri: client_uri.to_owned(),
        logo_uri: None,
        tos_uri: None,
        policy_uri: None,
        contacts: None,
        static_registrations: vec![],
        dynamic_registrations_file: "f".to_owned(),
    };
    assert!(login_registrations(&configuration("https://element.io")).is_ok());
    assert!(matches!(
        login_registrations(&configuration("odd")),
        Err(HumanQrLoginError::OidcMetadataInvalid)
    ));
}
