//! Logging in through a sliding sync proxy.

use vstd::prelude::*;

use crate::authentication::{is_url_if_any, url_of_option, OidcRegistrationsError};
use crate::text::concat2;
use crate::url_text::{read_url, url_reading};

verus! {

/// An error of a login.
pub enum AuthenticationError {
    InvalidServerName,
    /// With the text of the error of the request.
    ServerUnreachable { message: String },
    /// With the text of the answer.
    WellKnownLookupFailed { message: String },
    /// With the text of the error of reading the answer.
    WellKnownDeserializationError { message: String },
    SlidingSyncNotAvailable,
    OidcNotSupported,
    OidcMetadataMissing,
    OidcMetadataInvalid,
    OidcRegistrationsPathInvalid,
    OidcCallbackUrlInvalid,
    OidcCancelled,
    OidcError { message: String },
    Generic { message: String },
}

/// Why a client could not be built.
pub enum BuildFailure {
    InvalidServerName,
    Http { message: String },
    /// The server answered the lookup of its well-known configuration with an
    /// error.
    WellKnownAnswer { message: String },
    /// The well-known configuration could not be read.
    WellKnownContent { message: String },
    SlidingSyncNotAvailable,
    Other { message: String },
}

/// The text of an error of a login.
pub open spec fn authentication_error_text(error: AuthenticationError) -> Seq<char> {
    match error {
        AuthenticationError::InvalidServerName => "The supplied server name is invalid."@,
        AuthenticationError::ServerUnreachable { message } => message@,
        AuthenticationError::WellKnownLookupFailed { message } => message@,
        AuthenticationError::WellKnownDeserializationError { message } => message@,
        AuthenticationError::SlidingSyncNotAvailable =>
            "The homeserver doesn't provide a trusted sliding sync proxy in its well-known configuration."@,
        AuthenticationError::OidcNotSupported =>
            "The homeserver doesn't provide an authentication issuer in its well-known configuration."@,
        AuthenticationError::OidcMetadataMissing =>
            "Unable to use OIDC as no client metadata has been supplied."@,
        AuthenticationError::OidcMetadataInvalid =>
            "Unable to use OIDC as the supplied client metadata is invalid."@,
        AuthenticationError::OidcRegistrationsPathInvalid =>
            "Failed to use the supplied registrations file path."@,
        AuthenticationError::OidcCallbackUrlInvalid =>
            "The supplied callback URL used to complete OIDC is invalid."@,
        AuthenticationError::OidcCancelled => "The OIDC login was cancelled by the user."@,
        AuthenticationError::OidcError { message } => "An error occurred with OIDC: "@ + message@,
        AuthenticationError::Generic { message } => "An error occurred: "@ + message@,
    }
}

impl AuthenticationError {
    /// The text of the error.
    pub fn to_string(&self) -> (r: String)
        ensures
            r@ == authentication_error_text(*self),
    {
        match self {
            AuthenticationError::InvalidServerName => {
                "The supplied server name is invalid.".to_owned()
            },
            AuthenticationError::ServerUnreachable { message } => message.clone(),
            AuthenticationError::WellKnownLookupFailed { message } => message.clone(),
            AuthenticationError::WellKnownDeserializationError { message } => message.clone(),
            AuthenticationError::SlidingSyncNotAvailable => {
                "The homeserver doesn't provide a trusted sliding sync proxy in its well-known configuration.".to_owned()
            },
            AuthenticationError::OidcNotSupported => {
                "The homeserver doesn't provide an authentication issuer in its well-known configuration.".to_owned()
            },
            AuthenticationError::OidcMetadataMissing => {
                "Unable to use OIDC as no client metadata has been supplied.".to_owned()
            },
            AuthenticationError::OidcMetadataInvalid => {
                "Unable to use OIDC as the supplied client metadata is invalid.".to_owned()
            },
            AuthenticationError::OidcRegistrationsPathInvalid => {
                "Failed to use the supplied registrations file path.".to_owned()
            },
            AuthenticationError::OidcCallbackUrlInvalid => {
                "The supplied callback URL used to complete OIDC is invalid.".to_owned()
            },
            AuthenticationError::OidcCancelled => {
                "The OIDC login was cancelled by the user.".to_owned()
            },
            AuthenticationError::OidcError { message } => {
                concat2("An error occurred with OIDC: ", message.as_str())
            },
            AuthenticationError::Generic { message } => {
                concat2("An error occurred: ", message.as_str())
            },
        }
    }

    /// What a client that could not be built becomes.
    pub fn from_build_failure(failure: BuildFailure) -> (r: AuthenticationError)
        ensures
            r == match failure {
                BuildFailure::InvalidServerName => AuthenticationError::InvalidServerName,
                BuildFailure::Http { message } => AuthenticationError::ServerUnreachable {
                    message,
                },
                BuildFailure::WellKnownAnswer { message } =>
                    AuthenticationError::WellKnownLookupFailed { message },
                BuildFailure::WellKnownContent { message } =>
                    AuthenticationError::WellKnownDeserializationError { message },
                BuildFailure::SlidingSyncNotAvailable =>
                    AuthenticationError::SlidingSyncNotAvailable,
                BuildFailure::Other { message } => AuthenticationError::Generic { message },
            },
    {
        match failure {
            BuildFailure::InvalidServerName => AuthenticationError::InvalidServerName,
            BuildFailure::Http { message } => AuthenticationError::ServerUnreachable { message },
            BuildFailure::WellKnownAnswer { message } => {
                AuthenticationError::WellKnownLookupFailed { message }
            },
            BuildFailure::WellKnownContent { message } => {
                AuthenticationError::WellKnownDeserializationError { message }
            },
            BuildFailure::SlidingSyncNotAvailable => AuthenticationError::SlidingSyncNotAvailable,
            BuildFailure::Other { message } => AuthenticationError::Generic { message },
        }
    }

    /// What an error of the registrations becomes.
    pub fn from_registrations_error(error: OidcRegistrationsError) -> (r: AuthenticationError)
        ensures
            r == match error {
                OidcRegistrationsError::InvalidFilePath =>
                    AuthenticationError::OidcRegistrationsPathInvalid,
                OidcRegistrationsError::Other { message } => AuthenticationError::OidcError {
                    message,
                },
            },
    {
        match error {
            OidcRegistrationsError::InvalidFilePath => {
                AuthenticationError::OidcRegistrationsPathInvalid
            },
            OidcRegistrationsError::Other { message } => AuthenticationError::OidcError { message },
        }
    }
}

/// The configuration to use when authenticating with OpenID Connect.
pub struct OidcConfiguration {
    /// The name of the client that is shown during authentication.
    pub client_name: Option<String>,
    /// Where to go when the authentication was successful.
    pub redirect_uri: String,
    /// A URI with information about the client.
    pub client_uri: Option<String>,
    /// A URI with the logo of the client.
    pub logo_uri: Option<String>,
    /// A URI with the terms of service of the client.
    pub tos_uri: Option<String>,
    /// A URI with the privacy policy of the client.
    pub policy_uri: Option<String>,
    /// The e-mail addresses of those responsible for the client.
    pub contacts: Option<Vec<String>>,
    /// The client ID at each of these issuers.
    pub static_registrations: Vec<(String, String)>,
    /// A file where dynamic registrations are kept.
    pub dynamic_registrations_file: String,
}

/// What an issuer is told of a client: a native application, without authentication
/// at the token endpoint, that uses refresh tokens, authorization codes and device
/// codes.
pub struct ServiceMetadata {
    pub client_name: Option<String>,
    pub redirect_uri: String,
    pub client_uri: Option<String>,
    pub logo_uri: Option<String>,
    pub policy_uri: Option<String>,
    pub tos_uri: Option<String>,
    pub contacts: Option<Vec<String>>,
}

/// The URL of a URI that may be left out.
fn optional_url(uri: &Option<String>) -> (r: Result<Option<String>, AuthenticationError>)
    ensures
        match r {
            Ok(url) => url_of_option(*uri, url),
            Err(error) => !is_url_if_any(*uri) && error is OidcMetadataInvalid,
        },
{
    match uri {
        Some(text) => match read_url(text.as_str()) {
            Some(url) => Ok(Some(url)),
            None => Err(AuthenticationError::OidcMetadataInvalid),
        },
        None => Ok(None),
    }
}

/// Whether all URIs of a configuration but the redirect URI are URLs.
pub open spec fn has_uris(configuration: OidcConfiguration) -> bool {
    &&& is_url_if_any(configuration.client_uri)
    &&& is_url_if_any(configuration.logo_uri)
    &&& is_url_if_any(configuration.policy_uri)
    &&& is_url_if_any(configuration.tos_uri)
}

impl OidcConfiguration {
    /// What an issuer is told of the client. The redirect URI is looked at first.
    pub fn into_metadata(self) -> (r: Result<ServiceMetadata, AuthenticationError>)
        ensures
            match r {
                Ok(metadata) => {
                    &&& metadata.client_name == self.client_name
                    &&& url_reading(self.redirect_uri@) == Some(metadata.redirect_uri@)
                    &&& url_of_option(self.client_uri, metadata.client_uri)
                    &&& url_of_option(self.logo_uri, metadata.logo_uri)
                    &&& url_of_option(self.policy_uri, metadata.policy_uri)
                    &&& url_of_option(self.tos_uri, metadata.tos_uri)
                    &&& metadata.contacts == self.contacts
                },
                Err(error) => if url_reading(self.redirect_uri@) is Some {
                    !has_uris(self) && error is OidcMetadataInvalid
                } else {
                    error is OidcCallbackUrlInvalid
                },
            },
    {
        let redirect_uri: String = match read_url(self.redirect_uri.as_str()) {
            Some(url) => url,
            None => return Err(AuthenticationError::OidcCallbackUrlInvalid),
        };
        let client_uri: Option<String> = match optional_url(&self.client_uri) {
            Ok(url) => url,
            Err(error) => return Err(error),
        };
        let logo_uri: Option<String> = match optional_url(&self.logo_uri) {
            Ok(url) => url,
            Err(error) => return Err(error),
        };
        let policy_uri: Option<String> = match optional_url(&self.policy_uri) {
            Ok(url) => url,
            Err(error) => return Err(error),
        };
        let tos_uri: Option<String> = match optional_url(&self.tos_uri) {
            Ok(url) => url,
            Err(error) => return Err(error),
        };
        Ok(
            ServiceMetadata {
                client_name: self.client_name,
                redirect_uri,
                client_uri,
                logo_uri,
                policy_uri,
                tos_uri,
                contacts: self.contacts,
            },
        )
    }
}

/// What a homeserver offers for logging in.
pub struct HomeserverLoginDetails {
    pub url: String,
    pub sliding_sync_proxy: Option<String>,
    pub supports_oidc_login: bool,
    pub supports_password_login: bool,
}

impl HomeserverLoginDetails {
    /// The URL of the homeserver.
    pub fn url(&self) -> (r: String)
        ensures
            r == self.url,
    {
        self.url.clone()
    }

    /// The URL of the sliding sync proxy, if any.
    pub fn sliding_sync_proxy(&self) -> (r: Option<String>)
        ensures
            r == self.sliding_sync_proxy,
    {
        self.sliding_sync_proxy.clone()
    }

    /// Whether the homeserver supports login with OpenID Connect.
    pub fn supports_oidc_login(&self) -> (r: bool)
        ensures
            r == self.supports_oidc_login,
    {
        self.supports_oidc_login
    }

    /// Whether the homeserver supports login with a password.
    pub fn supports_password_login(&self) -> (r: bool)
        ensures
            r == self.supports_password_login,
    {
        self.supports_password_login
    }
}

/// What kept a client from being built is told by what it was, with its text.
pub proof fn build_failures_are_told(
    message: String,
    r: (
        AuthenticationError,
        AuthenticationError,
        AuthenticationError,
        AuthenticationError,
        AuthenticationError,
        AuthenticationError,
    ),
)
    requires
        call_ensures(
            AuthenticationError::from_build_failure,
            (BuildFailure::InvalidServerName,),
            r.0,
        ),
        call_ensures(
            AuthenticationError::from_build_failure,
            (BuildFailure::Http { message },),
            r.1,
        ),
        call_ensures(
            AuthenticationError::from_build_failure,
            (BuildFailure::WellKnownAnswer { message },),
            r.2,
        ),
        call_ensures(
            AuthenticationError::from_build_failure,
            (BuildFailure::WellKnownContent { message },),
            r.3,
        ),
        call_ensures(
            AuthenticationError::from_build_failure,
            (BuildFailure::SlidingSyncNotAvailable,),
            r.4,
        ),
        call_ensures(
            AuthenticationError::from_build_failure,
            (BuildFailure::Other { message },),
            r.5,
        ),
    ensures
        r.0 is InvalidServerName,
        r.1 == (AuthenticationError::ServerUnreachable { message }),
        r.2 == (AuthenticationError::WellKnownLookupFailed { message }),
        r.3 == (AuthenticationError::WellKnownDeserializationError { message }),
        r.4 is SlidingSyncNotAvailable,
        r.5 == (AuthenticationError::Generic { message }),
{
}

/// The metadata of a client has each URL in its own place and the contacts that were given; it
/// is refused only for a URI that is not a URL, and the redirect URI is told apart.
pub proof fn service_metadata_has_each_url_in_its_place(
    configuration: OidcConfiguration,
    r: Result<ServiceMetadata, AuthenticationError>,
)
    requires
        call_ensures(OidcConfiguration::into_metadata, (configuration,), r),
    ensures
        r is Ok ==> {
            let m = r->Ok_0;
            &&& m.client_name == configuration.client_name && m.contacts == configuration.contacts
            &&& Some(m.redirect_uri@) == url_reading(configuration.redirect_uri@)
            &&& m.client_uri is Some <==> configuration.client_uri is Some
            &&& m.client_uri is Some ==> Some(m.client_uri->0@) == url_reading(
                configuration.client_uri->0@,
            )
            &&& m.logo_uri is Some <==> configuration.logo_uri is Some
            &&& m.logo_uri is Some ==> Some(m.logo_uri->0@) == url_reading(
                configuration.logo_uri->0@,
            )
            &&& m.policy_uri is Some <==> configuration.policy_uri is Some
            &&& m.policy_uri is Some ==> Some(m.policy_uri->0@) == url_reading(
                configuration.policy_uri->0@,
            )
            &&& m.tos_uri is Some <==> configuration.tos_uri is Some
            &&& m.tos_uri is Some ==> Some(m.tos_uri->0@) == url_reading(configuration.tos_uri->0@)
        },
        r is Err ==> (r->Err_0 is OidcCallbackUrlInvalid <==> url_reading(
            configuration.redirect_uri@,
        ) is None),
        r is Err && url_reading(configuration.redirect_uri@) is Some ==> r->Err_0 is
            OidcMetadataInvalid,
{
}

} // verus!
