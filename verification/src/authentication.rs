//! Logging in: what a homeserver offers, and what OpenID Connect and SSO need.

use vstd::prelude::*;

use crate::session::{OidcPrompt, SlidingSyncVersion};
use crate::text::concat2;
use crate::url_text::{read_url, url_reading};

verus! {

/// A way to log in that a homeserver offers.
#[derive(Clone, Copy, Debug, PartialEq, Eq, Structural)]
pub enum LoginFlow {
    Password,
    Sso,
    Other,
}

/// What a homeserver offers for logging in.
pub struct HomeserverLoginDetails {
    pub url: String,
    pub sliding_sync_version: SlidingSyncVersion,
    pub supports_oidc_login: bool,
    pub supported_oidc_prompts: Vec<OidcPrompt>,
    pub supports_sso_login: bool,
    pub supports_password_login: bool,
}

/// Whether one of the flows is this one. If the flows are not known, none is.
pub open spec fn offers(flows: Option<Vec<LoginFlow>>, flow: LoginFlow) -> bool {
    match flows {
        Some(flows) => flows@.contains(flow),
        None => false,
    }
}

/// Whether one of the flows is this one.
fn has_flow(flows: &Vec<LoginFlow>, flow: LoginFlow) -> (r: bool)
    ensures
        r == flows@.contains(flow),
{
    let mut i: usize = 0;
    while i < flows.len()
        invariant
            i <= flows.len(),
            forall|j: int| 0 <= j < i ==> flows@[j] != flow,
        decreases flows.len() - i,
    {
        if flows[i] == flow {
            return true;
        }
        i = i + 1;
    }
    false
}

impl HomeserverLoginDetails {
    /// What a homeserver offers: OpenID Connect, with the prompts of its metadata,
    /// if the metadata could be fetched; a password or SSO if one of the flows, as
    /// far as they are known, is for it.
    pub fn new(
        url: String,
        sliding_sync_version: SlidingSyncVersion,
        metadata_prompts: Option<Vec<String>>,
        flows: Option<Vec<LoginFlow>>,
    ) -> (r: HomeserverLoginDetails)
        ensures
            r.url == url,
            r.sliding_sync_version == sliding_sync_version,
            r.supports_oidc_login == (metadata_prompts is Some),
            match metadata_prompts {
                Some(names) => {
                    &&& r.supported_oidc_prompts@.len() == names@.len()
                    &&& forall|i: int|
                        0 <= i < names@.len() ==> {
                            &&& (#[trigger] r.supported_oidc_prompts@[i]).name() == names@[i]@
                            &&& r.supported_oidc_prompts@[i].is_read()
                        }
                },
                None => r.supported_oidc_prompts@.len() == 0,
            },
            r.supports_password_login == offers(flows, LoginFlow::Password),
            r.supports_sso_login == offers(flows, LoginFlow::Sso),
    {
        let supports_oidc_login: bool = metadata_prompts.is_some();
        let mut supported_oidc_prompts: Vec<OidcPrompt> = Vec::new();
        if let Some(names) = &metadata_prompts {
            let mut i: usize = 0;
            while i < names.len()
                invariant
                    i <= names.len(),
                    supported_oidc_prompts@.len() == i,
                    forall|j: int|
                        0 <= j < i ==> {
                            &&& (#[trigger] supported_oidc_prompts@[j]).name() == names@[j]@
                            &&& supported_oidc_prompts@[j].is_read()
                        },
                decreases names.len() - i,
            {
                supported_oidc_prompts.push(OidcPrompt::from(names[i].as_str()));
                i = i + 1;
            }
        }
        let supports_password_login: bool = match &flows {
            Some(flows) => has_flow(flows, LoginFlow::Password),
            None => false,
        };
        let supports_sso_login: bool = match &flows {
            Some(flows) => has_flow(flows, LoginFlow::Sso),
            None => false,
        };
        HomeserverLoginDetails {
            url,
            sliding_sync_version,
            supports_oidc_login,
            supported_oidc_prompts,
            supports_sso_login,
            supports_password_login,
        }
    }

    /// The URL of the homeserver.
    pub fn url(&self) -> (r: String)
        ensures
            r == self.url,
    {
        self.url.clone()
    }

    /// The sliding sync version.
    pub fn sliding_sync_version(&self) -> (r: SlidingSyncVersion)
        ensures
            r == self.sliding_sync_version,
    {
        self.sliding_sync_version
    }

    /// Whether the homeserver supports login with OpenID Connect.
    pub fn supports_oidc_login(&self) -> (r: bool)
        ensures
            r == self.supports_oidc_login,
    {
        self.supports_oidc_login
    }

    /// The prompts that can be used in the login URL.
    pub fn supported_oidc_prompts(&self) -> (r: Vec<OidcPrompt>)
        ensures
            r@ == self.supported_oidc_prompts@,
    {
        let mut out: Vec<OidcPrompt> = Vec::new();
        let mut i: usize = 0;
        while i < self.supported_oidc_prompts.len()
            invariant
                i <= self.supported_oidc_prompts.len(),
                out@ == self.supported_oidc_prompts@.take(i as int),
            decreases self.supported_oidc_prompts.len() - i,
        {
            out.push(self.supported_oidc_prompts[i].copy());
            i = i + 1;
        }
        proof {
            assert(self.supported_oidc_prompts@.take(i as int) =~= self.supported_oidc_prompts@);
        }
        out
    }

    /// Whether the homeserver supports login with a password.
    pub fn supports_password_login(&self) -> (r: bool)
        ensures
            r == self.supports_password_login,
    {
        self.supports_password_login
    }
}

/// An error of a login with SSO.
pub enum SsoError {
    CallbackUrlInvalid,
    LoginWithTokenFailed,
    Generic { message: String },
}

impl SsoError {
    /// The text of the error.
    pub fn to_string(&self) -> (r: String)
        ensures
            r@ == match *self {
                SsoError::CallbackUrlInvalid =>
                    "The supplied callback URL used to complete SSO is invalid."@,
                SsoError::LoginWithTokenFailed =>
                    "Logging in with the token from the supplied callback URL failed."@,
                SsoError::Generic { message } => "An error occurred: "@ + message@,
            },
    {
        match self {
            SsoError::CallbackUrlInvalid => {
                "The supplied callback URL used to complete SSO is invalid.".to_owned()
            },
            SsoError::LoginWithTokenFailed => {
                "Logging in with the token from the supplied callback URL failed.".to_owned()
            },
            SsoError::Generic { message } => concat2("An error occurred: ", message.as_str()),
        }
    }
}

/// What came of the callback URL of a login with SSO.
#[derive(Clone, Copy, Debug, PartialEq, Eq, Structural)]
pub enum SsoOutcome {
    /// There is no token in the URL.
    UrlRefused,
    /// The token was not accepted.
    LoginFailed,
    /// The user is logged in.
    LoggedIn,
}

/// The URL that a login with SSO came back to.
pub fn sso_callback_url(callback_url: &str) -> (r: Result<String, SsoError>)
    ensures
        match url_reading(callback_url@) {
            Some(url) => r matches Ok(text) && text@ == url,
            None => r matches Err(error) && error is CallbackUrlInvalid,
        },
{
    match read_url(callback_url) {
        Some(url) => Ok(url),
        None => Err(SsoError::CallbackUrlInvalid),
    }
}

/// How a login with SSO ends.
pub fn sso_result(outcome: SsoOutcome) -> (r: Result<(), SsoError>)
    ensures
        match outcome {
            SsoOutcome::UrlRefused => r matches Err(error) && error is CallbackUrlInvalid,
            SsoOutcome::LoginFailed => r matches Err(error) && error is LoginWithTokenFailed,
            SsoOutcome::LoggedIn => r is Ok,
        },
{
    match outcome {
        SsoOutcome::UrlRefused => Err(SsoError::CallbackUrlInvalid),
        SsoOutcome::LoginFailed => Err(SsoError::LoginWithTokenFailed),
        SsoOutcome::LoggedIn => Ok(()),
    }
}

/// The configuration to use when authenticating with OpenID Connect.
pub struct OidcConfiguration {
    /// The name of the client that is shown during authentication.
    pub client_name: Option<String>,
    /// Where to go when the authentication was successful.
    pub redirect_uri: String,
    /// A URI with information about the client.
    pub client_uri: String,
    /// A URI with the logo of the client.
    pub logo_uri: Option<String>,
    /// A URI with the terms of service of the client.
    pub tos_uri: Option<String>,
    /// A URI with the privacy policy of the client.
    pub policy_uri: Option<String>,
    /// The e-mail addresses of those responsible for the client.
    pub contacts: Option<Vec<String>>,
    /// The client ID at each of these issuers.
    pub static_registrations: Vec<(String, String)>,
    /// A file where dynamic registrations are kept.
    pub dynamic_registrations_file: String,
}

/// What an issuer is told of a client: a native application that logs in with an
/// authorization code, for which the issuer comes back to the redirect URI, or with
/// a device code.
pub struct ClientMetadata {
    pub client_name: Option<String>,
    pub redirect_uri: String,
    pub client_uri: String,
    pub logo_uri: Option<String>,
    pub policy_uri: Option<String>,
    pub tos_uri: Option<String>,
}

/// The registrations of a client.
pub struct RegistrationPlan {
    pub registrations_file: String,
    pub client_metadata: ClientMetadata,
    /// The client ID at each of these issuers.
    pub static_registrations: Vec<(String, String)>,
}

/// An error of an authentication with OpenID Connect.
pub enum OidcError {
    NotSupported,
    MetadataInvalid,
    RegistrationsPathInvalid,
    CallbackUrlInvalid,
    Cancelled,
    Generic { message: String },
}

impl OidcError {
    /// The text of the error.
    pub fn to_string(&self) -> (r: String)
        ensures
            r@ == match *self {
                OidcError::NotSupported =>
                    "The homeserver doesn't provide an authentication issuer in its well-known configuration."@,
                OidcError::MetadataInvalid =>
                    "Unable to use OIDC as the supplied client metadata is invalid."@,
                OidcError::RegistrationsPathInvalid =>
                    "Failed to use the supplied registrations file path."@,
                OidcError::CallbackUrlInvalid =>
                    "The supplied callback URL used to complete OIDC is invalid."@,
                OidcError::Cancelled => "The OIDC login was cancelled by the user."@,
                OidcError::Generic { message } => "An error occurred: "@ + message@,
            },
    {
        match self {
            OidcError::NotSupported => {
                "The homeserver doesn't provide an authentication issuer in its well-known configuration.".to_owned()
            },
            OidcError::MetadataInvalid => {
                "Unable to use OIDC as the supplied client metadata is invalid.".to_owned()
            },
            OidcError::RegistrationsPathInvalid => {
                "Failed to use the supplied registrations file path.".to_owned()
            },
            OidcError::CallbackUrlInvalid => {
                "The supplied callback URL used to complete OIDC is invalid.".to_owned()
            },
            OidcError::Cancelled => "The OIDC login was cancelled by the user.".to_owned(),
            OidcError::Generic { message } => concat2("An error occurred: ", message.as_str()),
        }
    }
}

/// An error of OAuth 2.0, with its text.
pub struct OAuthError {
    pub kind: OAuthErrorKind,
    pub message: String,
}

/// What went wrong with OAuth 2.0.
#[derive(Clone, Copy, Debug, PartialEq, Eq, Structural)]
pub enum OAuthErrorKind {
    /// The metadata could not be found.
    Discovery { not_supported: bool },
    /// The redirect URI could not be read.
    RedirectUri,
    /// The state is not the one of the login.
    InvalidState,
    /// The user cancelled the login.
    Cancelled,
    /// Anything else.
    Other,
}

/// What went wrong with the registrations of a client.
pub enum OidcRegistrationsError {
    InvalidFilePath,
    Other { message: String },
}

/// An error of a call that may be one of OAuth 2.0.
pub enum LoginError {
    OAuth { error: OAuthError },
    Other { message: String },
}

/// What an error of OAuth 2.0 becomes.
pub open spec fn oidc_error_of(error: OAuthError) -> OidcError {
    match error.kind {
        OAuthErrorKind::Discovery { not_supported: true } => OidcError::NotSupported,
        OAuthErrorKind::RedirectUri => OidcError::CallbackUrlInvalid,
        OAuthErrorKind::InvalidState => OidcError::CallbackUrlInvalid,
        OAuthErrorKind::Cancelled => OidcError::Cancelled,
        _ => OidcError::Generic { message: error.message },
    }
}

impl OidcError {
    /// What an error of OAuth 2.0 becomes.
    pub fn from_oauth_error(error: OAuthError) -> (r: OidcError)
        ensures
            r == oidc_error_of(error),
    {
        match error.kind {
            OAuthErrorKind::Discovery { not_supported: true } => OidcError::NotSupported,
            OAuthErrorKind::RedirectUri => OidcError::CallbackUrlInvalid,
            OAuthErrorKind::InvalidState => OidcError::CallbackUrlInvalid,
            OAuthErrorKind::Cancelled => OidcError::Cancelled,
            _ => OidcError::Generic { message: error.message },
        }
    }

    /// What an error of the registrations becomes.
    pub fn from_registrations_error(error: OidcRegistrationsError) -> (r: OidcError)
        ensures
            r == match error {
                OidcRegistrationsError::InvalidFilePath => OidcError::RegistrationsPathInvalid,
                OidcRegistrationsError::Other { message } => OidcError::Generic { message },
            },
    {
        match error {
            OidcRegistrationsError::InvalidFilePath => OidcError::RegistrationsPathInvalid,
            OidcRegistrationsError::Other { message } => OidcError::Generic { message },
        }
    }

    /// What an error of a call becomes.
    pub fn from_login_error(error: LoginError) -> (r: OidcError)
        ensures
            r == match error {
                LoginError::OAuth { error } => oidc_error_of(error),
                LoginError::Other { message } => OidcError::Generic { message },
            },
    {
        match error {
            LoginError::OAuth { error } => OidcError::from_oauth_error(error),
            LoginError::Other { message } => OidcError::Generic { message },
        }
    }
}

/// Whether a URI that may be left out is one.
pub open spec fn is_url_if_any(uri: Option<String>) -> bool {
    uri matches Some(text) ==> url_reading(text@) is Some
}

/// The URL of a URI that may be left out.
pub open spec fn url_of_option(uri: Option<String>, r: Option<String>) -> bool {
    match uri {
        Some(text) => r is Some && url_reading(text@) == Some(r->0@),
        None => r is None,
    }
}

/// The URL of a URI that may be left out.
fn optional_url(uri: &Option<String>) -> (r: Result<Option<String>, OidcError>)
    ensures
        match r {
            Ok(url) => url_of_option(*uri, url),
            Err(error) => !is_url_if_any(*uri) && error is MetadataInvalid,
        },
{
    match uri {
        Some(text) => match read_url(text.as_str()) {
            Some(url) => Ok(Some(url)),
            None => Err(OidcError::MetadataInvalid),
        },
        None => Ok(None),
    }
}

/// Whether the redirect URI is one.
pub open spec fn has_redirect_uri(configuration: OidcConfiguration) -> bool {
    url_reading(configuration.redirect_uri@) is Some
}

/// Whether all other URIs of a configuration are.
pub open spec fn has_uris(configuration: OidcConfiguration) -> bool {
    &&& url_reading(configuration.client_uri@) is Some
    &&& is_url_if_any(configuration.logo_uri)
    &&& is_url_if_any(configuration.policy_uri)
    &&& is_url_if_any(configuration.tos_uri)
}

/// What an issuer is told of a client.
pub open spec fn metadata_of(configuration: OidcConfiguration, r: ClientMetadata) -> bool {
    &&& r.client_name == configuration.client_name
    &&& url_reading(configuration.redirect_uri@) == Some(r.redirect_uri@)
    &&& url_reading(configuration.client_uri@) == Some(r.client_uri@)
    &&& url_of_option(configuration.logo_uri, r.logo_uri)
    &&& url_of_option(configuration.policy_uri, r.policy_uri)
    &&& url_of_option(configuration.tos_uri, r.tos_uri)
}

/// The registrations whose issuer is named by a URL, with that URL.
pub open spec fn registrations_of(entries: Seq<(String, String)>) -> Seq<(Seq<char>, Seq<char>)>
    decreases entries.len(),
{
    if entries.len() == 0 {
        Seq::empty()
    } else {
        let rest = registrations_of(entries.drop_last());
        match url_reading(entries.last().0@) {
            Some(issuer) => rest.push((issuer, entries.last().1@)),
            None => rest,
        }
    }
}

/// The texts of a list of pairs.
pub open spec fn pair_views(pairs: Seq<(String, String)>) -> Seq<(Seq<char>, Seq<char>)> {
    pairs.map_values(|pair: (String, String)| (pair.0@, pair.1@))
}

impl OidcConfiguration {
    /// The redirect URI.
    pub fn redirect_uri(&self) -> (r: Result<String, OidcError>)
        ensures
            match url_reading(self.redirect_uri@) {
                Some(url) => r matches Ok(text) && text@ == url,
                None => r matches Err(error) && error is CallbackUrlInvalid,
            },
    {
        match read_url(self.redirect_uri.as_str()) {
            Some(url) => Ok(url),
            None => Err(OidcError::CallbackUrlInvalid),
        }
    }

    /// What an issuer is told of the client. The redirect URI is looked at first.
    pub fn client_metadata(&self) -> (r: Result<ClientMetadata, OidcError>)
        ensures
            match r {
                Ok(metadata) => metadata_of(*self, metadata),
                Err(error) => if has_redirect_uri(*self) {
                    !has_uris(*self) && error is MetadataInvalid
                } else {
                    error is CallbackUrlInvalid
                },
            },
    {
        let redirect_uri: String = match self.redirect_uri() {
            Ok(url) => url,
            Err(error) => return Err(error),
        };
        let client_uri: String = match read_url(self.client_uri.as_str()) {
            Some(url) => url,
            None => return Err(OidcError::MetadataInvalid),
        };
        let logo_uri: Option<String> = match optional_url(&self.logo_uri) {
            Ok(url) => url,
            Err(error) => return Err(error),
        };
        let policy_uri: Option<String> = match optional_url(&self.policy_uri) {
            Ok(url) => url,
            Err(error) => return Err(error),
        };
        let tos_uri: Option<String> = match optional_url(&self.tos_uri) {
            Ok(url) => url,
            Err(error) => return Err(error),
        };
        Ok(
            ClientMetadata {
                client_name: self.client_name.clone(),
                redirect_uri,
                client_uri,
                logo_uri,
                policy_uri,
                tos_uri,
            },
        )
    }

    /// The registrations of the client. An issuer that is not named by a URL is
    /// left out.
    pub fn registrations(&self) -> (r: Result<RegistrationPlan, OidcError>)
        ensures
            match r {
                Ok(plan) => {
                    &&& plan.registrations_file == self.dynamic_registrations_file
                    &&& metadata_of(*self, plan.client_metadata)
                    &&& pair_views(plan.static_registrations@) == registrations_of(
                        self.static_registrations@,
                    )
                },
                Err(error) => if has_redirect_uri(*self) {
                    !has_uris(*self) && error is MetadataInvalid
                } else {
                    error is CallbackUrlInvalid
                },
            },
    {
        let client_metadata: ClientMetadata = match self.client_metadata() {
            Ok(metadata) => metadata,
            Err(error) => return Err(error),
        };
        let entries: &Vec<(String, String)> = &self.static_registrations;
        let mut static_registrations: Vec<(String, String)> = Vec::new();
        let mut i: usize = 0;
        while i < entries.len()
            invariant
                i <= entries.len(),
                pair_views(static_registrations@) == registrations_of(entries@.take(i as int)),
            decreases entries.len() - i,
        {
            proof {
                assert(entries@.take(i as int + 1).drop_last() =~= entries@.take(i as int));
            }
            let ghost before = static_registrations@;
            match read_url(entries[i].0.as_str()) {
                Some(issuer) => {
                    static_registrations.push((issuer, entries[i].1.clone()));
                    proof {
                        assert(pair_views(static_registrations@) =~= pair_views(before).push(
                            (static_registrations@.last().0@, static_registrations@.last().1@),
                        ));
                    }
                },
                None => {},
            }
            i = i + 1;
        }
        proof {
            assert(entries@.take(i as int) =~= entries@);
        }
        Ok(
            RegistrationPlan {
                registrations_file: self.dynamic_registrations_file.clone(),
                client_metadata,
                static_registrations,
            },
        )
    }
}

/// A configuration all of whose URIs are URLs is never refused, and any other
/// always is.
pub proof fn metadata_needs_all_uris(configuration: OidcConfiguration, metadata: ClientMetadata)
    requires
        metadata_of(configuration, metadata),
    ensures
        has_redirect_uri(configuration),
        has_uris(configuration),
{
}

/// What is told of the logins that a homeserver offers is what it said: each way to log in is
/// supported if and only if it is among those offered, and the prompts are handed on one by
/// one.
pub proof fn login_details_are_what_the_homeserver_said(
    url: String,
    version: SlidingSyncVersion,
    prompts: Option<Vec<String>>,
    flows: Option<Vec<LoginFlow>>,
    details: HomeserverLoginDetails,
    told: (String, SlidingSyncVersion, bool, bool, Vec<OidcPrompt>),
    i: int,
)
    requires
        call_ensures(HomeserverLoginDetails::new, (url, version, prompts, flows), details),
        call_ensures(HomeserverLoginDetails::url, (&details,), told.0),
        call_ensures(HomeserverLoginDetails::sliding_sync_version, (&details,), told.1),
        call_ensures(HomeserverLoginDetails::supports_oidc_login, (&details,), told.2),
        call_ensures(HomeserverLoginDetails::supports_password_login, (&details,), told.3),
        call_ensures(HomeserverLoginDetails::supported_oidc_prompts, (&details,), told.4),
    ensures
        told.0 == url && told.1 == version,
        told.2 <==> prompts is Some,
        told.3 <==> flows is Some && flows->0@.contains(LoginFlow::Password),
        details.supports_sso_login <==> flows is Some && flows->0@.contains(LoginFlow::Sso),
        prompts is None ==> told.4@.len() == 0,
        prompts is Some ==> told.4@.len() == prompts->0@.len(),
        prompts is Some && 0 <= i < prompts->0@.len() ==> match told.4@[i] {
            OidcPrompt::Create => prompts->0@[i]@ == "create"@,
            OidcPrompt::Login => prompts->0@[i]@ == "login"@,
            OidcPrompt::Consent => prompts->0@[i]@ == "consent"@,
            OidcPrompt::Unknown { value } => value@ == prompts->0@[i]@ && value@ != "create"@
                && value@ != "login"@ && value@ != "consent"@,
        },
{
    if prompts is Some && 0 <= i < prompts->0@.len() {
        assert(details.supported_oidc_prompts@[i].is_read());
        assert(told.4@[i] == details.supported_oidc_prompts@[i]);
    }
}

/// A login with SSO is finished if and only if the URL that it came back to is one, holds a
/// token, and the token logs in; the error says which of these failed.
pub proof fn sso_logins_are_finished(
    callback: &str,
    url: Result<String, SsoError>,
    refused: Result<(), SsoError>,
    failed: Result<(), SsoError>,
    done: Result<(), SsoError>,
)
    requires
        call_ensures(sso_callback_url, (callback,), url),
        call_ensures(sso_result, (SsoOutcome::UrlRefused,), refused),
        call_ensures(sso_result, (SsoOutcome::LoginFailed,), failed),
        call_ensures(sso_result, (SsoOutcome::LoggedIn,), done),
    ensures
        url is Ok <==> url_reading(callback@) is Some,
        url is Ok ==> Some(url->Ok_0@) == url_reading(callback@),
        url is Err ==> url->Err_0 is CallbackUrlInvalid,
        refused is Err && refused->Err_0 is CallbackUrlInvalid,
        failed is Err && failed->Err_0 is LoginWithTokenFailed,
        done is Ok,
{
}

/// Errors of OAuth 2.0 are told by what went wrong: that it is not supported, that the
/// callback does not fit, that the user gave up; anything else by its text. It does not
/// matter on which way the error came.
pub proof fn oidc_errors_tell_what_went_wrong(
    error: OAuthError,
    direct: OidcError,
    from_login: OidcError,
    message: String,
    other: OidcError,
    path: OidcError,
    registration: OidcError,
)
    requires
        call_ensures(OidcError::from_oauth_error, (error,), direct),
        call_ensures(OidcError::from_login_error, (LoginError::OAuth { error },), from_login),
        call_ensures(OidcError::from_login_error, (LoginError::Other { message },), other),
        call_ensures(
            OidcError::from_registrations_error,
            (OidcRegistrationsError::InvalidFilePath,),
            path,
        ),
        call_ensures(
            OidcError::from_registrations_error,
            (OidcRegistrationsError::Other { message },),
            registration,
        ),
    ensures
        from_login == direct,
        direct is NotSupported <==> error.kind == (OAuthErrorKind::Discovery {
            not_supported: true,
        }),
        direct is CallbackUrlInvalid <==> error.kind is RedirectUri || error.kind is InvalidState,
        direct is Cancelled <==> error.kind is Cancelled,
        direct is Generic <==> error.kind is Other || error.kind == (OAuthErrorKind::Discovery {
            not_supported: false,
        }),
        direct is Generic ==> direct->message == error.message,
        other == (OidcError::Generic { message }),
        path is RegistrationsPathInvalid,
        registration == (OidcError::Generic { message }),
{
}

/// The metadata of a client has the URL of each URI in its own place, those that are left out
/// stay out, and it is refused if and only if one of them is not a URL.
pub proof fn metadata_has_each_url_in_its_place(
    configuration: OidcConfiguration,
    metadata: Result<ClientMetadata, OidcError>,
    plan: Result<RegistrationPlan, OidcError>,
)
    requires
        call_ensures(OidcConfiguration::client_metadata, (&configuration,), metadata),
        call_ensures(OidcConfiguration::registrations, (&configuration,), plan),
    ensures
        metadata is Ok ==> {
            let m = metadata->Ok_0;
            &&& m.client_name == configuration.client_name
            &&& Some(m.redirect_uri@) == url_reading(configuration.redirect_uri@)
            &&& Some(m.client_uri@) == url_reading(configuration.client_uri@)
            &&& m.logo_uri is Some <==> configuration.logo_uri is Some
            &&& m.logo_uri is Some ==> Some(m.logo_uri->0@) == url_reading(
                configuration.logo_uri->0@,
            )
            &&& m.policy_uri is Some <==> configuration.policy_uri is Some
            &&& m.policy_uri is Some ==> Some(m.policy_uri->0@) == url_reading(
                configuration.policy_uri->0@,
            )
            &&& m.tos_uri is Some <==> configuration.tos_uri is Some
            &&& m.tos_uri is Some ==> Some(m.tos_uri->0@) == url_reading(configuration.tos_uri->0@)
        },
        metadata is Err ==> url_reading(configuration.redirect_uri@) is None || url_reading(
            configuration.client_uri@,
        ) is None || (configuration.logo_uri is Some && url_reading(
            configuration.logo_uri->0@,
        ) is None) || (configuration.policy_uri is Some && url_reading(
            configuration.policy_uri->0@,
        ) is None) || (configuration.tos_uri is Some && url_reading(
            configuration.tos_uri->0@,
        ) is None),
        metadata is Err ==> (metadata->Err_0 is CallbackUrlInvalid <==> url_reading(
            configuration.redirect_uri@,
        ) is None),
        plan is Ok ==> plan->Ok_0.registrations_file == configuration.dynamic_registrations_file
            && plan->Ok_0.client_metadata.client_name == configuration.client_name
            && Some(plan->Ok_0.client_metadata.redirect_uri@) == url_reading(
            configuration.redirect_uri@,
        ),
{
}

/// A client is registered with each issuer whose name is a URL, under the client ID that was
/// given for it, and with no other.
pub proof fn clients_are_registered_with_their_issuers(
    configuration: OidcConfiguration,
    plan: RegistrationPlan,
    issuer: Seq<char>,
    client_id: Seq<char>,
)
    requires
        call_ensures(
            OidcConfiguration::registrations,
            (&configuration,),
            Ok::<RegistrationPlan, OidcError>(plan),
        ),
    ensures
        pair_views(plan.static_registrations@).contains((issuer, client_id)) <==> exists|i: int|
            {
                &&& 0 <= i < configuration.static_registrations@.len()
                &&& url_reading((#[trigger] configuration.static_registrations@[i]).0@) == Some(
                    issuer,
                )
                &&& configuration.static_registrations@[i].1@ == client_id
            },
{
    lemma_registered(configuration.static_registrations@, issuer, client_id);
}

/// What is registered was given.
proof fn lemma_registered(entries: Seq<(String, String)>, issuer: Seq<char>, client_id: Seq<char>)
    ensures
        registrations_of(entries).contains((issuer, client_id)) <==> exists|i: int|
            {
                &&& 0 <= i < entries.len()
                &&& url_reading((#[trigger] entries[i]).0@) == Some(issuer)
                &&& entries[i].1@ == client_id
            },
    decreases entries.len(),
{
    if entries.len() > 0 {
        let front = entries.drop_last();
        let all = registrations_of(entries);
        let before = registrations_of(front);
        let pair = (issuer, client_id);
        lemma_registered(front, issuer, client_id);
        if all.contains(pair) {
            let k = choose|k: int| 0 <= k < all.len() && all[k] == pair;
            if k < before.len() {
                assert(before[k] == pair);
                let i = choose|i: int|
                    {
                        &&& 0 <= i < front.len()
                        &&& url_reading((#[trigger] front[i]).0@) == Some(issuer)
                        &&& front[i].1@ == client_id
                    };
                assert(entries[i] == front[i]);
            } else {
                assert(url_reading(entries[entries.len() - 1].0@) == Some(issuer));
            }
        }
        if exists|i: int|
            {
                &&& 0 <= i < entries.len()
                &&& url_reading((#[trigger] entries[i]).0@) == Some(issuer)
                &&& entries[i].1@ == client_id
            } {
            let i = choose|i: int|
                {
                    &&& 0 <= i < entries.len()
                    &&& url_reading((#[trigger] entries[i]).0@) == Some(issuer)
                    &&& entries[i].1@ == client_id
                };
            if i < front.len() {
                assert(front[i] == entries[i]);
                let k = choose|k: int| 0 <= k < before.len() && before[k] == pair;
                assert(all[k] == pair);
            } else {
                assert(all[all.len() - 1] == pair);
            }
        }
    }
}

} // verus!
