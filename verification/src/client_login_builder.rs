//! Login requests, and a builder that can be sent once.

use vstd::prelude::*;

use crate::error::ClientError;
use crate::session::{json_string, json_string_of};
use crate::text::concat3;

verus! {

/// How a user logs in.
pub enum LoginMethod {
    /// With the name and the password of the user.
    Username { username: String, password: String },
    /// With the e-mail address and the password of the user.
    Email { address: String, password: String },
    /// With a method that is not part of Matrix, and its data in JSON.
    Custom { login_type: String, data: String },
}

/// A login request.
pub struct LoginRequest {
    pub method: LoginMethod,
    /// The name that the device is shown with.
    pub initial_device_display_name: Option<String>,
    /// The ID of the device, if it has one already.
    pub device_id: Option<String>,
}

impl LoginRequest {
    /// A login with a user name and a password.
    pub fn login(
        username: String,
        password: String,
        initial_device_name: Option<String>,
        device_id: Option<String>,
    ) -> (r: LoginRequest)
        ensures
            r == (LoginRequest {
                method: LoginMethod::Username { username, password },
                initial_device_display_name: initial_device_name,
                device_id,
            }),
    {
        LoginRequest {
            method: LoginMethod::Username { username, password },
            initial_device_display_name: initial_device_name,
            device_id,
        }
    }

    /// A login with an e-mail address and a password.
    pub fn login_with_email(
        email: String,
        password: String,
        initial_device_name: Option<String>,
        device_id: Option<String>,
    ) -> (r: LoginRequest)
        ensures
            r == (LoginRequest {
                method: LoginMethod::Email { address: email, password },
                initial_device_display_name: initial_device_name,
                device_id,
            }),
    {
        LoginRequest {
            method: LoginMethod::Email { address: email, password },
            initial_device_display_name: initial_device_name,
            device_id,
        }
    }

    /// A login with a JSON web token.
    pub fn custom_login_with_jwt(
        jwt: &str,
        initial_device_name: Option<String>,
        device_id: Option<String>,
    ) -> (r: LoginRequest)
        ensures
            r.initial_device_display_name == initial_device_name,
            r.device_id == device_id,
            r.method is Custom,
            r.method->login_type@ == "org.matrix.login.jwt"@,
            r.method->data@ == "{\"token\":"@ + json_string_of(jwt@) + "}"@,
    {
        let data: String = match json_string(jwt) {
            Some(token) => concat3("{\"token\":", token.as_str(), "}"),
            None => "{}".to_owned(),
        };
        LoginRequest {
            method: LoginMethod::Custom { login_type: "org.matrix.login.jwt".to_owned(), data },
            initial_device_display_name: initial_device_name,
            device_id,
        }
    }
}

/// A login request that can be changed until it is sent.
pub struct ClientLoginBuilder {
    pub inner: Option<LoginRequest>,
}

impl ClientLoginBuilder {
    /// A builder of a login request.
    pub fn new(request: LoginRequest) -> (r: Self)
        ensures
            r.inner == Some(request),
    {
        ClientLoginBuilder { inner: Some(request) }
    }

    /// Sets the ID of the device. Nothing happens once the request was sent.
    pub fn device_id(self, value: String) -> (r: Self)
        ensures
            r.inner == (match self.inner {
                Some(request) => Some(LoginRequest { device_id: Some(value), ..request }),
                None => None,
            }),
    {
        match self.inner {
            Some(request) => ClientLoginBuilder {
                inner: Some(
                    LoginRequest {
                        method: request.method,
                        initial_device_display_name: request.initial_device_display_name,
                        device_id: Some(value),
                    },
                ),
            },
            None => ClientLoginBuilder { inner: None },
        }
    }

    /// Sets the name that the device is shown with. Nothing happens once the request
    /// was sent.
    pub fn initial_device_display_name(self, value: String) -> (r: Self)
        ensures
            r.inner == (match self.inner {
                Some(request) => Some(
                    LoginRequest { initial_device_display_name: Some(value), ..request },
                ),
                None => None,
            }),
    {
        match self.inner {
            Some(request) => ClientLoginBuilder {
                inner: Some(
                    LoginRequest {
                        method: request.method,
                        initial_device_display_name: Some(value),
                        device_id: request.device_id,
                    },
                ),
            },
            None => ClientLoginBuilder { inner: None },
        }
    }

    /// The request to be sent. It is handed out once.
    pub fn send(&mut self) -> (r: Result<LoginRequest, ClientError>)
        ensures
            final(self).inner is None,
            match old(self).inner {
                Some(request) => r == Ok::<LoginRequest, ClientError>(request),
                None => r matches Err(error) && error matches ClientError::Generic { msg, details }
                    && msg@ == "ClientLoginBuilder is already consumed"@ && details is None,
            },
    {
        match self.inner.take() {
            Some(request) => Ok(request),
            None => Err(
                ClientError::Generic {
                    msg: "ClientLoginBuilder is already consumed".to_owned(),
                    details: None,
                },
            ),
        }
    }
}

/// A login carries the credentials, the device and the name of the device that it was given,
/// and what the builder is given later takes the place of that alone.
pub proof fn logins_carry_what_they_were_given(
    name: String,
    password: String,
    device_name: Option<String>,
    device_id: Option<String>,
    value: String,
    by_name: LoginRequest,
    by_email: LoginRequest,
    builders: (ClientLoginBuilder, ClientLoginBuilder, ClientLoginBuilder),
)
    requires
        call_ensures(LoginRequest::login, (name, password, device_name, device_id), by_name),
        call_ensures(
            LoginRequest::login_with_email,
            (name, password, device_name, device_id),
            by_email,
        ),
        call_ensures(ClientLoginBuilder::new, (by_name,), builders.0),
        call_ensures(ClientLoginBuilder::device_id, (builders.0, value), builders.1),
        call_ensures(
            ClientLoginBuilder::initial_device_display_name,
            (builders.0, value),
            builders.2,
        ),
    ensures
        by_name.method == (LoginMethod::Username { username: name, password }),
        by_email.method == (LoginMethod::Email { address: name, password }),
        by_name.device_id == device_id && by_email.device_id == device_id,
        by_name.initial_device_display_name == device_name
            && by_email.initial_device_display_name == device_name,
        builders.0.inner == Some(by_name),
        builders.1.inner == Some(LoginRequest { device_id: Some(value), ..by_name }),
        builders.2.inner == Some(
            LoginRequest { initial_device_display_name: Some(value), ..by_name },
        ),
{
}

/// A login with a token carries the token as a JSON string, which tells tokens apart by their
/// length at least, and device and name as given.
pub proof fn jwt_logins_carry_the_token(
    jwt: &str,
    device_name: Option<String>,
    device_id: Option<String>,
    request: LoginRequest,
)
    requires
        call_ensures(LoginRequest::custom_login_with_jwt, (jwt, device_name, device_id), request),
    ensures
        request.device_id == device_id && request.initial_device_display_name == device_name,
        request.method matches LoginMethod::Custom { login_type, data } && login_type@
            == "org.matrix.login.jwt"@ && data@ == "{\"token\":"@ + json_string_of(jwt@) + "}"@,
{
}

/// A login that was built is sent once: the first time as it was built, and not again.
pub proof fn logins_are_sent_once(
    builder: &mut ClientLoginBuilder,
    request: LoginRequest,
    first: Result<LoginRequest, ClientError>,
    sent: &mut ClientLoginBuilder,
    second: Result<LoginRequest, ClientError>,
)
    requires
        mut_ref_current(builder).inner == Some(request),
        call_ensures(ClientLoginBuilder::send, (builder,), first),
        mut_ref_current(sent) == mut_ref_future(builder),
        call_ensures(ClientLoginBuilder::send, (sent,), second),
    ensures
        first == Ok::<LoginRequest, ClientError>(request),
        second is Err,
{
}

} // verus!
