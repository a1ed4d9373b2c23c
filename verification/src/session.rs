//! Sessions: what is kept of a login, and how a login is taken up again.

use vstd::prelude::*;

use crate::error::{texts_error, text_error, ClientError};
use crate::ids::{check_user_id, user_id_refusal};
use crate::json::JsonError;
use crate::text::{concat3, same};

verus! {

/// Which sliding sync a session uses.
#[derive(Clone, Copy, Debug, PartialEq, Eq, Structural)]
pub enum SlidingSyncVersion {
    /// None at all.
    NoVersion,
    /// The one of the homeserver.
    Native,
}

/// Everything that it takes to take up a login again.
pub struct Session {
    /// The access token of the session.
    pub access_token: String,
    /// The token for refreshing the access token, if any.
    pub refresh_token: Option<String>,
    /// The user who logged in.
    pub user_id: String,
    /// The device of the session.
    pub device_id: String,
    /// The URL of the homeserver.
    pub homeserver_url: String,
    /// What else there is to keep if OpenID Connect was used to log in.
    pub oidc_data: Option<String>,
    /// The sliding sync of the session.
    pub sliding_sync_version: SlidingSyncVersion,
}

/// The tokens of a session.
pub struct SessionTokens {
    pub access_token: String,
    pub refresh_token: Option<String>,
}

/// Who logged in, from which device, with which tokens.
pub struct UserSession {
    pub user_id: String,
    pub device_id: String,
    pub tokens: SessionTokens,
}

/// The authentication of a client.
pub enum AuthApi {
    /// The one of the homeserver itself, with its session if there is one.
    Matrix { session: Option<UserSession> },
    /// OAuth 2.0, with its session and its client ID if there are any.
    OAuth { session: Option<UserSession>, client_id: Option<String> },
    /// One that is not known.
    Unknown,
}

/// What is kept of a client that logged in with OpenID Connect.
pub struct OidcSessionData {
    pub client_id: String,
}

/// A session that a client can take up.
pub enum AuthSession {
    /// With the authentication of the homeserver itself.
    Matrix { user: UserSession },
    /// With OAuth 2.0.
    OAuth { client_id: String, user: UserSession },
}

/// The hexadecimal digit of a number below 16.
pub open spec fn lower_hex_digit(n: u32) -> char {
    "0123456789abcdef"@[n as int]
}

/// A character as it stands in a JSON string.
pub open spec fn json_char_of(c: char) -> Seq<char> {
    if c == '"' || c == '\\' {
        seq!['\\', c]
    } else if c as u32 == 0x08 {
        seq!['\\', 'b']
    } else if c == '\t' {
        seq!['\\', 't']
    } else if c == '\n' {
        seq!['\\', 'n']
    } else if c as u32 == 0x0c {
        seq!['\\', 'f']
    } else if c == '\r' {
        seq!['\\', 'r']
    } else if (c as u32) < 0x20 {
        "\\u00"@ + seq![
            lower_hex_digit((c as u32 / 16) as u32),
            lower_hex_digit((c as u32 % 16) as u32),
        ]
    } else {
        seq![c]
    }
}

/// A text as a JSON string, with its quotes: quotes, backslashes and control
/// characters are escaped.
pub open spec fn json_string_of(text: Seq<char>) -> Seq<char> {
    seq!['"'] + text.map_values(|c: char| json_char_of(c)).flatten() + seq!['"']
}

/// `serde_json::to_string` of a string. Claimed: writing a string does not fail; the
/// characters stand between quotes; `"` and `\\` are escaped by a backslash; of the
/// control characters below the space, five have a short escape and the others are
/// written with four hexadecimal digits in lower case; every other character stands
/// as it is.
#[verifier::external_body]
pub(crate) fn json_string(text: &str) -> (r: Option<String>)
    ensures
        r is Some,
        r->0@ == json_string_of(text@),
{
    serde_json::to_string(text).ok()
}

/// What is kept of a client that logged in with OpenID Connect: a JSON object with
/// its client ID.
pub open spec fn oidc_json(client_id: Seq<char>) -> Seq<char> {
    "{\"client_id\":"@ + json_string_of(client_id) + "}"@
}

/// The session of a login.
pub open spec fn session_of(
    user: UserSession,
    homeserver_url: String,
    version: SlidingSyncVersion,
    r: Session,
) -> bool {
    &&& r.access_token == user.tokens.access_token
    &&& r.refresh_token == user.tokens.refresh_token
    &&& r.user_id == user.user_id
    &&& r.device_id == user.device_id
    &&& r.homeserver_url == homeserver_url
    &&& r.sliding_sync_version == version
}

/// What there is to keep of the session of a client. There has to be a session, and
/// with OpenID Connect there has to be a client ID.
pub open spec fn session_result(
    auth_api: AuthApi,
    homeserver_url: String,
    sliding_sync_version: SlidingSyncVersion,
    r: Result<Session, ClientError>,
) -> bool {
    match auth_api {
        AuthApi::Matrix { session: Some(user) } => {
            &&& r matches Ok(session)
            &&& session_of(user, homeserver_url, sliding_sync_version, session)
            &&& session.oidc_data is None
        },
        AuthApi::Matrix { session: None } => r matches Err(error) && text_error(
            "Missing session"@,
            error,
        ),
        AuthApi::OAuth { session: Some(user), client_id: Some(client_id) } => {
            &&& r matches Ok(session)
            &&& session_of(user, homeserver_url, sliding_sync_version, session)
            &&& session.oidc_data matches Some(data)
            &&& data@ == oidc_json(client_id@)
        },
        AuthApi::OAuth { session: None, .. } => r matches Err(error) && text_error(
            "Missing session"@,
            error,
        ),
        AuthApi::OAuth { session: Some(_), client_id: None } => r matches Err(error)
            && text_error("OIDC client ID is missing."@, error),
        AuthApi::Unknown => r matches Err(error) && text_error(
            "Unknown authentication API"@,
            error,
        ),
    }
}

impl Session {
    /// What there is to keep of the session of a client. There has to be a
    /// session, and with OpenID Connect there has to be a client ID.
    pub fn new(
        auth_api: AuthApi,
        homeserver_url: String,
        sliding_sync_version: SlidingSyncVersion,
    ) -> (r: Result<Session, ClientError>)
        ensures
            session_result(auth_api, homeserver_url, sliding_sync_version, r),
    {
        match auth_api {
            AuthApi::Matrix { session } => {
                let user: UserSession = match session {
                    Some(user) => user,
                    None => return Err(ClientError::from_text("Missing session")),
                };
                Ok(Self::from_user(user, homeserver_url, None, sliding_sync_version))
            },
            AuthApi::OAuth { session, client_id } => {
                let user: UserSession = match session {
                    Some(user) => user,
                    None => return Err(ClientError::from_text("Missing session")),
                };
                let client_id: String = match client_id {
                    Some(client_id) => client_id,
                    None => return Err(ClientError::from_text("OIDC client ID is missing.")),
                };
                let oidc_data: Option<String> = match json_string(client_id.as_str()) {
                    Some(json) => Some(concat3("{\"client_id\":", json.as_str(), "}")),
                    None => None,
                };
                Ok(Self::from_user(user, homeserver_url, oidc_data, sliding_sync_version))
            },
            AuthApi::Unknown => Err(ClientError::from_text("Unknown authentication API")),
        }
    }

    /// The session of a login.
    fn from_user(
        user: UserSession,
        homeserver_url: String,
        oidc_data: Option<String>,
        sliding_sync_version: SlidingSyncVersion,
    ) -> (r: Session)
        ensures
            session_of(user, homeserver_url, sliding_sync_version, r),
            r.oidc_data == oidc_data,
    {
        Session {
            access_token: user.tokens.access_token,
            refresh_token: user.tokens.refresh_token,
            user_id: user.user_id,
            device_id: user.device_id,
            homeserver_url,
            oidc_data,
            sliding_sync_version,
        }
    }

    /// The tokens of the session.
    pub fn into_tokens(self) -> (r: SessionTokens)
        ensures
            r == (SessionTokens {
                access_token: self.access_token,
                refresh_token: self.refresh_token,
            }),
    {
        SessionTokens { access_token: self.access_token, refresh_token: self.refresh_token }
    }
}

/// Who logged in, as a session says it.
pub open spec fn user_of(session: Session) -> UserSession {
    UserSession {
        user_id: session.user_id,
        device_id: session.device_id,
        tokens: SessionTokens {
            access_token: session.access_token,
            refresh_token: session.refresh_token,
        },
    }
}

/// The session that a client can take up, from what was kept of it. What was kept of
/// OpenID Connect comes read: it decides which authentication the session is for.
/// The user has to be named by a user ID.
pub open spec fn auth_session_result(
    value: Session,
    oidc_data: Option<Result<OidcSessionData, JsonError>>,
    r: Result<AuthSession, ClientError>,
) -> bool {
    match oidc_data {
        Some(Err(json_error)) => r matches Err(error) && texts_error(
            (json_error.message@, json_error.debug@),
            error,
        ),
        Some(Ok(data)) => match user_id_refusal(value.user_id@) {
            Some(texts) => r matches Err(error) && texts_error(texts, error),
            None => r == Ok::<AuthSession, ClientError>(
                AuthSession::OAuth { client_id: data.client_id, user: user_of(value) },
            ),
        },
        None => match user_id_refusal(value.user_id@) {
            Some(texts) => r matches Err(error) && texts_error(texts, error),
            None => r == Ok::<AuthSession, ClientError>(
                AuthSession::Matrix { user: user_of(value) },
            ),
        },
    }
}

impl AuthSession {
    /// The session that a client can take up, from what was kept of it. What was
    /// kept of OpenID Connect comes read: it decides which authentication the
    /// session is for. The user has to be named by a user ID.
    pub fn try_from(
        value: Session,
        oidc_data: Option<Result<OidcSessionData, JsonError>>,
    ) -> (r: Result<AuthSession, ClientError>)
        requires
            oidc_data is Some <==> value.oidc_data is Some,
        ensures
            auth_session_result(value, oidc_data, r),
    {
        let data: Option<OidcSessionData> = match oidc_data {
            Some(Ok(data)) => Some(data),
            Some(Err(error)) => return Err(ClientError::from_json_error(error)),
            None => None,
        };
        match check_user_id(value.user_id.as_str()) {
            Ok(()) => {},
            Err(error) => return Err(error),
        }
        let user: UserSession = UserSession {
            user_id: value.user_id,
            device_id: value.device_id,
            tokens: SessionTokens {
                access_token: value.access_token,
                refresh_token: value.refresh_token,
            },
        };
        match data {
            Some(data) => Ok(AuthSession::OAuth { client_id: data.client_id, user }),
            None => Ok(AuthSession::Matrix { user }),
        }
    }
}

/// What was kept of a session is all that it takes to take it up again: user,
/// device and tokens are those of the login.
pub proof fn kept_session_is_the_login(
    user: UserSession,
    homeserver_url: String,
    version: SlidingSyncVersion,
    session: Session,
)
    requires
        session_of(user, homeserver_url, version, session),
    ensures
        user_of(session) == user,
{
}

/// How a user can be asked to log in.
pub enum OidcPrompt {
    /// The user is asked to create an account.
    Create,
    /// The user is asked to log in again.
    Login,
    /// The user is asked for consent.
    Consent,
    /// Any other value.
    Unknown { value: String },
}

impl OidcPrompt {
    /// The name that the prompt goes by.
    pub open spec fn name(self) -> Seq<char> {
        match self {
            OidcPrompt::Create => "create"@,
            OidcPrompt::Login => "login"@,
            OidcPrompt::Consent => "consent"@,
            OidcPrompt::Unknown { value } => value@,
        }
    }

    /// Whether the prompt is the one that its name stands for: a name with a
    /// meaning of its own is never an unknown value.
    pub open spec fn is_read(self) -> bool {
        self matches OidcPrompt::Unknown { value } ==> value@ != "create"@ && value@ != "login"@
            && value@ != "consent"@
    }

    /// The prompt that goes by a name.
    pub fn from(name: &str) -> (r: OidcPrompt)
        ensures
            r.name() == name@,
            r.is_read(),
    {
        if same(name, "create") {
            OidcPrompt::Create
        } else if same(name, "consent") {
            OidcPrompt::Consent
        } else if same(name, "login") {
            OidcPrompt::Login
        } else {
            OidcPrompt::Unknown { value: name.to_owned() }
        }
    }

    /// The name that the prompt goes by.
    pub fn as_str(&self) -> (r: &str)
        ensures
            r@ == self.name(),
    {
        match self {
            OidcPrompt::Create => "create",
            OidcPrompt::Login => "login",
            OidcPrompt::Consent => "consent",
            OidcPrompt::Unknown { value } => value.as_str(),
        }
    }

    /// A copy of the prompt.
    pub(crate) fn copy(&self) -> (r: OidcPrompt)
        ensures
            r == *self,
    {
        match self {
            OidcPrompt::Create => OidcPrompt::Create,
            OidcPrompt::Login => OidcPrompt::Login,
            OidcPrompt::Consent => OidcPrompt::Consent,
            OidcPrompt::Unknown { value } => OidcPrompt::Unknown { value: value.clone() },
        }
    }
}

/// Two prompts that were read from the same name are of the same kind.
pub proof fn prompt_is_found_by_its_name(a: OidcPrompt, b: OidcPrompt)
    requires
        a.is_read(),
        b.is_read(),
        a.name() == b.name(),
    ensures
        a is Create <==> b is Create,
        a is Login <==> b is Login,
        a is Consent <==> b is Consent,
        a is Unknown <==> b is Unknown,
{
    reveal_strlit("create");
    reveal_strlit("login");
    reveal_strlit("consent");
    assert("create"@.len() == 6 && "login"@.len() == 5 && "consent"@.len() == 7);
}

/// A login with OpenID Connect is taken up again as it was: what is restored from what
/// was kept of it is the same login, with the same user, device, tokens and client ID,
/// at the same homeserver and with the same sliding sync.
pub proof fn oidc_login_is_taken_up_again(
    user: UserSession,
    client_id: String,
    homeserver_url: String,
    version: SlidingSyncVersion,
    session: Session,
    restored: Result<AuthSession, ClientError>,
)
    requires
        call_ensures(
            Session::new,
            (
                AuthApi::OAuth { session: Some(user), client_id: Some(client_id) },
                homeserver_url,
                version,
            ),
            Ok::<Session, ClientError>(session),
        ),
        call_ensures(
            AuthSession::try_from,
            (session, Some(Ok::<OidcSessionData, JsonError>(OidcSessionData { client_id }))),
            restored,
        ),
        user_id_refusal(user.user_id@) is None,
    ensures
        session.oidc_data is Some,
        session.homeserver_url == homeserver_url && session.sliding_sync_version == version,
        restored == Ok::<AuthSession, ClientError>(AuthSession::OAuth { client_id, user }),
{
}

/// A login with the authentication of the homeserver is taken up again as it was.
pub proof fn matrix_login_is_taken_up_again(
    user: UserSession,
    homeserver_url: String,
    version: SlidingSyncVersion,
    session: Session,
    restored: Result<AuthSession, ClientError>,
)
    requires
        call_ensures(
            Session::new,
            (AuthApi::Matrix { session: Some(user) }, homeserver_url, version),
            Ok::<Session, ClientError>(session),
        ),
        call_ensures(AuthSession::try_from, (session, None), restored),
        user_id_refusal(user.user_id@) is None,
    ensures
        session.oidc_data is None,
        session.homeserver_url == homeserver_url && session.sliding_sync_version == version,
        restored == Ok::<AuthSession, ClientError>(AuthSession::Matrix { user }),
{
}

/// A session is kept if and only if there is one, and with OAuth 2.0 also a client ID;
/// and what was kept is taken up if and only if the user is named by a user ID and what
/// was kept of OpenID Connect could be read. The tokens are those of the session.
pub proof fn sessions_are_kept_and_taken_up(
    auth_api: AuthApi,
    homeserver_url: String,
    version: SlidingSyncVersion,
    kept: Result<Session, ClientError>,
    session: Session,
    oidc_data: Option<Result<OidcSessionData, JsonError>>,
    restored: Result<AuthSession, ClientError>,
    tokens: SessionTokens,
)
    requires
        call_ensures(Session::new, (auth_api, homeserver_url, version), kept),
        call_ensures(AuthSession::try_from, (session, oidc_data), restored),
        call_ensures(Session::into_tokens, (session,), tokens),
    ensures
        kept is Ok <==> match auth_api {
            AuthApi::Matrix { session } => session is Some,
            AuthApi::OAuth { session, client_id } => session is Some && client_id is Some,
            AuthApi::Unknown => false,
        },
        restored is Ok <==> user_id_refusal(session.user_id@) is None && (oidc_data is None
            || oidc_data->0 is Ok),
        restored matches Ok(auth) ==> (auth is OAuth <==> oidc_data is Some),
        restored matches Ok(auth) ==> (match auth {
            AuthSession::OAuth { user, .. } => user,
            AuthSession::Matrix { user } => user,
        }).tokens == tokens,
{
}

/// The name of a prompt is kept, and no two prompts have the same name.
pub proof fn prompts_keep_their_names(a: OidcPrompt, b: OidcPrompt, x: Seq<char>, y: Seq<char>)
    requires
        a.is_read() && b.is_read(),
        x == a.name() && y == b.name(),
        x == y,
    ensures
        a is Create <==> b is Create,
        a is Login <==> b is Login,
        a is Consent <==> b is Consent,
        a is Unknown ==> b is Unknown && a->value@ == b->value@,
{
    reveal_strlit("create");
    reveal_strlit("login");
    reveal_strlit("consent");
    assert("create"@.len() == 6 && "login"@.len() == 5 && "consent"@.len() == 7);
}

/// What is kept of a login with OpenID Connect is a JSON object with the client ID.
pub proof fn the_client_id_is_kept_as_json(
    user: UserSession,
    client_id: String,
    homeserver_url: String,
    version: SlidingSyncVersion,
    session: Session,
)
    requires
        call_ensures(
            Session::new,
            (
                AuthApi::OAuth { session: Some(user), client_id: Some(client_id) },
                homeserver_url,
                version,
            ),
            Ok::<Session, ClientError>(session),
        ),
    ensures
        session.oidc_data is Some,
        session.oidc_data->0@ == "{\"client_id\":"@ + json_string_of(client_id@) + "}"@,
        session.access_token == user.tokens.access_token && session.refresh_token
            == user.tokens.refresh_token,
        session.user_id == user.user_id && session.device_id == user.device_id,
{
}

/// A prompt is found by its name, and told by it.
pub proof fn prompts_are_found_and_told_by_name(name: &str, r: OidcPrompt, told: &str)
    requires
        call_ensures(OidcPrompt::from, (name,), r),
        call_ensures(OidcPrompt::as_str, (&r,), told),
    ensures
        told@ == name@,
        r is Create <==> name@ == "create"@,
        r is Login <==> name@ == "login"@,
        r is Consent <==> name@ == "consent"@,
{
    reveal_strlit("create");
    reveal_strlit("login");
    reveal_strlit("consent");
    assert("create"@.len() == 6 && "login"@.len() == 5 && "consent"@.len() == 7);
}

/// A text without quotes, backslashes and control characters stands in JSON as it is, between
/// quotes.
pub proof fn plain_texts_stand_as_they_are(text: Seq<char>)
    requires
        forall|i: int|
            0 <= i < text.len() ==> (#[trigger] text[i]) as u32 >= 0x20 && text[i] != '"' && text[i]
                != '\\',
    ensures
        json_string_of(text) == seq!['"'] + text + seq!['"'],
    decreases text.len(),
{
    let f = |c: char| json_char_of(c);
    lemma_plain_flatten(text);
}

/// Characters that stand as they are make up the text again.
proof fn lemma_plain_flatten(text: Seq<char>)
    requires
        forall|i: int|
            0 <= i < text.len() ==> (#[trigger] text[i]) as u32 >= 0x20 && text[i] != '"' && text[i]
                != '\\',
    ensures
        text.map_values(|c: char| json_char_of(c)).flatten() == text,
    decreases text.len(),
{
    let f = |c: char| json_char_of(c);
    let parts = text.map_values(f);
    if text.len() > 0 {
        let rest = text.subrange(1, text.len() as int);
        assert forall|i: int| 0 <= i < rest.len() implies (#[trigger] rest[i]) as u32 >= 0x20
            && rest[i] != '"' && rest[i] != '\\' by {
            assert(rest[i] == text[i + 1]);
        }
        lemma_plain_flatten(rest);
        assert(parts.drop_first() =~= rest.map_values(f));
        assert(parts.first() =~= seq![text[0]]);
        assert(parts.flatten() == parts.first() + parts.drop_first().flatten());
        assert(seq![text[0]] + rest =~= text);
    } else {
        assert(parts.flatten() =~= Seq::empty());
        assert(text =~= Seq::empty());
    }
}

} // verus!
