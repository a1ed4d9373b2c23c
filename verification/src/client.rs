//! Clients: how they are set up, who they tell of what, what they know of
//! themselves, and what they ask of a homeserver.

use vstd::prelude::*;

use crate::authentication::{
    has_redirect_uri, has_uris, metadata_of, pair_views, registrations_of, OidcConfiguration,
    OidcError, RegistrationPlan,
};
use crate::error::{context_error, text_error, texts_error, ClientError};
use crate::ids::{
    check_room_id, check_room_or_alias_id, parse_room_alias_id,
    parse_room_id, parse_user_server_name, room_alias_id_refusal, room_id_refusal,
    room_or_alias_id_refusal, user_id_refusal,
};
use crate::json::{raw_json_reading, read_raw_json, JsonError};
use crate::notification::NotificationItem;
use crate::room::{check_server_names, first_server_refusal};
use crate::send_queue::RoomSendQueueUpdate;
use crate::session::{
    auth_session_result, session_result, AuthApi, AuthSession, OidcPrompt, OidcSessionData, Session,
    SlidingSyncVersion,
};
use crate::text::{concat2, concat3, same, split_once_spec};
use crate::url_text::{read_url, url_reading};

verus! {

/// Told of errors of the authentication.
pub trait ClientDelegate {
    fn did_receive_auth_error(&self, is_soft_logout: bool);
}

/// Keeps sessions.
pub trait ClientSessionDelegate {
    fn retrieve_session_from_keychain(&self, user_id: String) -> Result<Session, ClientError>;

    fn save_session_in_keychain(&self, session: Session);
}

/// Told of updates of the send queues of all rooms.
pub trait SendQueueRoomUpdateListener {
    fn on_update(&self, room_id: String, update: RoomSendQueueUpdate);
}

/// Told of errors that disabled the send queue of a room.
pub trait SendQueueRoomErrorListener {
    fn on_error(&self, room_id: String, error: ClientError);
}

/// Told of notifications that come with a sync.
pub trait SyncNotificationListener {
    fn on_notification(&self, notification: NotificationItem, room_id: String);
}

/// Told of changes of the ignored users.
pub trait IgnoredUsersListener {
    fn call(&self, ignored_user_ids: Vec<String>);
}

/// What a client knows of itself.
pub struct Client {
    /// The user who is logged in.
    pub user_id: Option<String>,
    /// The device of the user who is logged in.
    pub device_id: Option<String>,
    /// The URL of the homeserver.
    pub homeserver: String,
    pub sliding_sync_version: SlidingSyncVersion,
    /// Whether there is somebody to tell of errors of the authentication.
    pub has_delegate: bool,
    /// Whether there is somebody to tell of messages that cannot be decrypted.
    pub has_utd_delegate: bool,
    /// Whether verification requests can be answered.
    pub has_verification_controller: bool,
    /// The directory of the stores, if they are on disk.
    pub store_path: Option<String>,
}

/// What is to be done for a new client.
#[derive(Clone, Copy, Debug, PartialEq, Eq, Structural)]
pub struct ClientSetup {
    /// Refreshes of tokens are locked against other processes.
    pub enable_refresh_lock: bool,
    /// Sessions are read from and saved with whoever keeps them.
    pub set_session_callbacks: bool,
}

/// An error that is a message alone.
pub open spec fn bare_error(msg: Seq<char>, error: ClientError) -> bool {
    &&& error matches ClientError::Generic { msg: found, details }
    &&& found@ == msg
    &&& details is None
}

/// An error that is a message alone.
fn new_bare_error(msg: &str) -> (r: ClientError)
    ensures
        bare_error(msg@, r),
{
    ClientError::Generic { msg: msg.to_owned(), details: None }
}

impl Client {
    /// A new client, and what is to be done for it. The lock needs somebody who keeps
    /// sessions.
    pub fn new(
        user_id: Option<String>,
        device_id: Option<String>,
        homeserver: String,
        sliding_sync_version: SlidingSyncVersion,
        enable_oidc_refresh_lock: bool,
        has_session_delegate: bool,
        store_path: Option<String>,
    ) -> (r: Result<(Client, ClientSetup), ClientError>)
        ensures
            if enable_oidc_refresh_lock && !has_session_delegate {
                r matches Err(error) && text_error(
                    "missing session delegates when enabling the cross-process lock"@,
                    error,
                )
            } else {
                r == Ok::<(Client, ClientSetup), ClientError>(
                    (
                        Client {
                            user_id,
                            device_id,
                            homeserver,
                            sliding_sync_version,
                            has_delegate: false,
                            has_utd_delegate: false,
                            has_verification_controller: false,
                            store_path,
                        },
                        ClientSetup {
                            enable_refresh_lock: enable_oidc_refresh_lock,
                            set_session_callbacks: has_session_delegate,
                        },
                    ),
                )
            },
    {
        if enable_oidc_refresh_lock && !has_session_delegate {
            return Err(
                ClientError::from_text(
                    "missing session delegates when enabling the cross-process lock",
                ),
            );
        }
        Ok(
            (
                Client {
                    user_id,
                    device_id,
                    homeserver,
                    sliding_sync_version,
                    has_delegate: false,
                    has_utd_delegate: false,
                    has_verification_controller: false,
                    store_path,
                },
                ClientSetup {
                    enable_refresh_lock: enable_oidc_refresh_lock,
                    set_session_callbacks: has_session_delegate,
                },
            ),
        )
    }
}

/// What a client is told of its session.
#[derive(Clone, Copy, Debug, PartialEq, Eq, Structural)]
pub enum SessionChange {
    /// The token is not known any more.
    UnknownToken { soft_logout: bool },
    /// There are new tokens.
    TokensRefreshed,
}

/// How long a message may take to be decrypted before it counts as one that cannot
/// be, in seconds.
pub const UTD_HOOK_GRACE_PERIOD: u64 = 60;

/// What is to be done for somebody who wants to answer verification requests.
pub enum ControllerStep {
    /// The controller that there is can be used.
    UseKept,
    /// The identity of this user is to be fetched.
    FetchIdentity { user_id: String },
}

impl Client {
    /// Sets who is told of errors of the authentication. The result says whether
    /// changes of the session are to be watched from now on. There can only be one
    /// to be told.
    pub fn set_delegate(&mut self, has_delegate: bool) -> (r: Result<bool, ClientError>)
        ensures
            if old(self).has_delegate {
                &&& r matches Err(error)
                &&& bare_error("Delegate already initialized"@, error)
                &&& *final(self) == *old(self)
            } else {
                &&& r == Ok::<bool, ClientError>(has_delegate)
                &&& *final(self) == (Client { has_delegate, ..*old(self) })
            },
    {
        if self.has_delegate {
            return Err(new_bare_error("Delegate already initialized"));
        }
        self.has_delegate = has_delegate;
        Ok(has_delegate)
    }

    /// What whoever is told of errors of the authentication is told of a change of
    /// the session: whether it is a soft logout, if the token is not known any more.
    pub fn process_session_change(&self, session_change: SessionChange) -> (r: Option<bool>)
        ensures
            r == (match session_change {
                SessionChange::UnknownToken { soft_logout } if self.has_delegate => Some(
                    soft_logout,
                ),
                _ => None,
            }),
    {
        if self.has_delegate {
            match session_change {
                SessionChange::UnknownToken { soft_logout } => Some(soft_logout),
                SessionChange::TokensRefreshed => None,
            }
        } else {
            None
        }
    }

    /// Sets who is told of messages that cannot be decrypted. There can only be one
    /// to be told.
    pub fn set_utd_delegate(&mut self) -> (r: Result<(), ClientError>)
        ensures
            if old(self).has_utd_delegate {
                &&& r matches Err(error)
                &&& bare_error("UTD delegate already initialized"@, error)
                &&& *final(self) == *old(self)
            } else {
                &&& r is Ok
                &&& *final(self) == (Client { has_utd_delegate: true, ..*old(self) })
            },
    {
        if self.has_utd_delegate {
            return Err(new_bare_error("UTD delegate already initialized"));
        }
        self.has_utd_delegate = true;
        Ok(())
    }

    /// Whether a message is handed on as a verification request: it has to be one,
    /// and there has to be somebody to answer it.
    pub fn is_answered_request(&self, msgtype: &str) -> (r: bool)
        ensures
            r == (msgtype@ == "m.key.verification.request"@ && self.has_verification_controller),
    {
        same(msgtype, "m.key.verification.request") && self.has_verification_controller
    }

    /// What is to be done for somebody who wants to answer verification requests.
    pub fn get_session_verification_controller(&self) -> (r: Result<ControllerStep, ClientError>)
        ensures
            if self.has_verification_controller {
                r matches Ok(step) && step is UseKept
            } else {
                match self.user_id {
                    Some(user_id) => r == Ok::<ControllerStep, ClientError>(
                        ControllerStep::FetchIdentity { user_id },
                    ),
                    None => r matches Err(error) && text_error(
                        "Failed retrieving current user_id"@,
                        error,
                    ),
                }
            },
    {
        if self.has_verification_controller {
            return Ok(ControllerStep::UseKept);
        }
        match &self.user_id {
            Some(user_id) => Ok(ControllerStep::FetchIdentity { user_id: user_id.clone() }),
            None => Err(ClientError::from_text("Failed retrieving current user_id")),
        }
    }

    /// Verification requests can be answered from now on if the identity was found.
    pub fn found_identity<I>(&mut self, identity: Option<I>) -> (r: Result<I, ClientError>)
        ensures
            match identity {
                Some(identity) => {
                    &&& r == Ok::<I, ClientError>(identity)
                    &&& *final(self) == (Client { has_verification_controller: true, ..*old(self) })
                },
                None => {
                    &&& r matches Err(error)
                    &&& text_error("Failed retrieving user identity"@, error)
                    &&& *final(self) == *old(self)
                },
            },
    {
        match identity {
            Some(identity) => {
                self.has_verification_controller = true;
                Ok(identity)
            },
            None => Err(ClientError::from_text("Failed retrieving user identity")),
        }
    }

    /// The session of the client, given its authentication.
    pub fn session(&self, auth_api: Option<AuthApi>) -> (r: Result<Session, ClientError>)
        ensures
            match auth_api {
                None => r matches Err(error) && text_error("Missing authentication API"@, error),
                Some(auth_api) => session_result(
                    auth_api,
                    self.homeserver,
                    self.sliding_sync_version,
                    r,
                ),
            },
    {
        match auth_api {
            Some(auth_api) => Session::new(
                auth_api,
                self.homeserver.clone(),
                self.sliding_sync_version,
            ),
            None => Err(ClientError::from_text("Missing authentication API")),
        }
    }

    /// The user whose session is looked for.
    pub fn session_user(&self) -> (r: Result<String, ClientError>)
        ensures
            found_text(self.user_id, "user isn't logged in"@, r),
    {
        found(&self.user_id, "user isn't logged in")
    }

    /// The user who is logged in.
    pub fn user_id(&self) -> (r: Result<String, ClientError>)
        ensures
            found_text(self.user_id, "No User ID found"@, r),
    {
        found(&self.user_id, "No User ID found")
    }

    /// The server of the user who is logged in.
    pub fn user_id_server_name(&self) -> (r: Result<String, ClientError>)
        ensures
            match self.user_id {
                Some(user_id) => match user_id_refusal(user_id@) {
                    None => {
                        &&& r matches Ok(name)
                        &&& split_once_spec(user_id@, ":"@) is Some
                        &&& name@ == (split_once_spec(user_id@, ":"@)->0).1
                    },
                    Some(texts) => r matches Err(error) && texts_error(texts, error),
                },
                None => r matches Err(error) && text_error("No User ID found"@, error),
            },
    {
        match &self.user_id {
            Some(user_id) => match parse_user_server_name(user_id.as_str()) {
                Ok(name) => Ok(name),
                Err(error) => Err(ClientError::from_id_parse_error(error)),
            },
            None => Err(ClientError::from_text("No User ID found")),
        }
    }

    /// The name of the user who is logged in, as the homeserver tells it.
    pub fn display_name(fetched: Option<String>) -> (r: Result<String, ClientError>)
        ensures
            found_text(fetched, "No User ID found"@, r),
    {
        found(&fetched, "No User ID found")
    }

    /// The device of the user who is logged in.
    pub fn device_id(&self) -> (r: Result<String, ClientError>)
        ensures
            found_text(self.device_id, "No Device ID found"@, r),
    {
        found(&self.device_id, "No Device ID found")
    }
}

/// What may be missing, or an error with this text.
pub open spec fn found_text(
    value: Option<String>,
    missing: Seq<char>,
    r: Result<String, ClientError>,
) -> bool {
    match value {
        Some(text) => r == Ok::<String, ClientError>(text),
        None => r matches Err(error) && text_error(missing, error),
    }
}

/// What may be missing, or an error with this text.
fn found(value: &Option<String>, missing: &str) -> (r: Result<String, ClientError>)
    ensures
        found_text(*value, missing@, r),
{
    match value {
        Some(text) => Ok(text.clone()),
        None => Err(ClientError::from_text(missing)),
    }
}

/// How many rooms are loaded when a session is taken up again.
pub enum RoomLoadSettings {
    /// All rooms.
    All,
    /// The room with this ID.
    One { room_id: String },
}

impl RoomLoadSettings {
    /// The text with which the settings are refused, if they are: a room has to be
    /// named by its ID.
    pub open spec fn refusal(self) -> Option<Seq<char>> {
        match self {
            RoomLoadSettings::All => None,
            RoomLoadSettings::One { room_id } => match room_id_refusal(room_id@) {
                Some(texts) => Some(texts.0),
                None => None,
            },
        }
    }

    /// The settings, if a room is named by its ID.
    pub fn checked(self) -> (r: Result<RoomLoadSettings, String>)
        ensures
            match self.refusal() {
                None => r == Ok::<RoomLoadSettings, String>(self),
                Some(text) => r matches Err(error) && error@ == text,
            },
    {
        match self {
            RoomLoadSettings::All => Ok(RoomLoadSettings::All),
            RoomLoadSettings::One { room_id } => match parse_room_id(room_id.as_str()) {
                Ok(()) => Ok(RoomLoadSettings::One { room_id }),
                Err(error) => Err(error.message),
            },
        }
    }
}

/// What it takes to take up a session again.
pub struct Restore {
    pub session: AuthSession,
    pub room_load_settings: RoomLoadSettings,
    pub sliding_sync_version: SlidingSyncVersion,
}

/// What it takes to take up a session again. The session is looked at first.
pub fn restore_session_with(
    session: Session,
    oidc_data: Option<Result<OidcSessionData, JsonError>>,
    room_load_settings: RoomLoadSettings,
) -> (r: Result<Restore, ClientError>)
    requires
        oidc_data is Some <==> session.oidc_data is Some,
    ensures
        match r {
            Ok(restore) => {
                &&& auth_session_result(
                    session,
                    oidc_data,
                    Ok::<AuthSession, ClientError>(restore.session),
                )
                &&& room_load_settings.refusal() is None
                &&& restore.room_load_settings == room_load_settings
                &&& restore.sliding_sync_version == session.sliding_sync_version
            },
            Err(error) => {
                ||| auth_session_result(session, oidc_data, Err::<AuthSession, ClientError>(error))
                ||| {
                    &&& exists|ok: AuthSession|
                        auth_session_result(session, oidc_data, Ok::<AuthSession, ClientError>(ok))
                    &&& room_load_settings.refusal() is Some
                    &&& bare_error(room_load_settings.refusal()->0, error)
                }
            },
        },
{
    let sliding_sync_version: SlidingSyncVersion = session.sliding_sync_version;
    let auth_session: AuthSession = match AuthSession::try_from(session, oidc_data) {
        Ok(auth_session) => auth_session,
        Err(error) => return Err(error),
    };
    match room_load_settings.checked() {
        Ok(room_load_settings) => Ok(
            Restore { session: auth_session, room_load_settings, sliding_sync_version },
        ),
        Err(error) => Err(ClientError::from_str(error.as_str(), None)),
    }
}

/// What it takes to take up a session again, with all rooms.
pub fn restore_session(
    session: Session,
    oidc_data: Option<Result<OidcSessionData, JsonError>>,
) -> (r: Result<Restore, ClientError>)
    requires
        oidc_data is Some <==> session.oidc_data is Some,
    ensures
        match r {
            Ok(restore) => {
                &&& auth_session_result(
                    session,
                    oidc_data,
                    Ok::<AuthSession, ClientError>(restore.session),
                )
                &&& restore.room_load_settings is All
                &&& restore.sliding_sync_version == session.sliding_sync_version
            },
            Err(error) => auth_session_result(
                session,
                oidc_data,
                Err::<AuthSession, ClientError>(error),
            ),
        },
{
    restore_session_with(session, oidc_data, RoomLoadSettings::All)
}

/// What is asked of an issuer so that a user can log in.
pub struct OidcLogin {
    pub registrations: RegistrationPlan,
    pub redirect_uri: String,
    pub device_id: Option<String>,
    pub additional_scopes: Option<Vec<String>>,
    /// How the user is asked to log in, by its name.
    pub prompt: Option<String>,
    pub login_hint: Option<String>,
}

/// What is asked of an issuer so that a user can log in.
pub fn url_for_oidc(
    oidc_configuration: &OidcConfiguration,
    prompt: Option<OidcPrompt>,
    login_hint: Option<String>,
    device_id: Option<String>,
    additional_scopes: Option<Vec<String>>,
) -> (r: Result<OidcLogin, OidcError>)
    ensures
        match r {
            Ok(login) => {
                &&& login.registrations.registrations_file
                    == oidc_configuration.dynamic_registrations_file
                &&& metadata_of(*oidc_configuration, login.registrations.client_metadata)
                &&& pair_views(login.registrations.static_registrations@) == registrations_of(
                    oidc_configuration.static_registrations@,
                )
                &&& url_reading(oidc_configuration.redirect_uri@) == Some(login.redirect_uri@)
                &&& login.device_id == device_id
                &&& login.additional_scopes == additional_scopes
                &&& login.login_hint == login_hint
                &&& match prompt {
                    Some(prompt) => login.prompt is Some && login.prompt->0@ == prompt.name(),
                    None => login.prompt is None,
                }
            },
            Err(error) => if has_redirect_uri(*oidc_configuration) {
                !has_uris(*oidc_configuration) && error is MetadataInvalid
            } else {
                error is CallbackUrlInvalid
            },
        },
{
    let registrations: RegistrationPlan = match oidc_configuration.registrations() {
        Ok(plan) => plan,
        Err(error) => return Err(error),
    };
    let redirect_uri: String = match oidc_configuration.redirect_uri() {
        Ok(url) => url,
        Err(error) => return Err(error),
    };
    let prompt: Option<String> = match &prompt {
        Some(prompt) => Some(prompt.as_str().to_owned()),
        None => None,
    };
    Ok(OidcLogin { registrations, redirect_uri, device_id, additional_scopes, prompt, login_hint })
}

/// The URL that a login with OpenID Connect came back to.
pub fn login_with_oidc_callback(callback_url: &str) -> (r: Result<String, OidcError>)
    ensures
        match url_reading(callback_url@) {
            Some(url) => r matches Ok(text) && text@ == url,
            None => r matches Err(error) && error is CallbackUrlInvalid,
        },
{
    match read_url(callback_url) {
        Some(url) => Ok(url),
        None => Err(OidcError::CallbackUrlInvalid),
    }
}

/// What a listener is told at first: of each message that is yet to be sent, room by
/// room, that it is about to be.
pub open spec fn initial_updates_of(echoes: Seq<(String, Vec<String>)>) -> Seq<
    (String, RoomSendQueueUpdate),
>
    decreases echoes.len(),
{
    if echoes.len() == 0 {
        Seq::empty()
    } else {
        initial_updates_of(echoes.drop_last()) + room_updates_of(
            echoes.last().0,
            echoes.last().1@,
        )
    }
}

/// What a listener is told at first of one room.
pub open spec fn room_updates_of(room_id: String, transaction_ids: Seq<String>) -> Seq<
    (String, RoomSendQueueUpdate),
> {
    transaction_ids.map_values(
        |transaction_id: String|
            (room_id, RoomSendQueueUpdate::NewLocalEvent { transaction_id }),
    )
}

/// What a listener is told at first of one room.
fn push_room_updates(
    updates: &mut Vec<(String, RoomSendQueueUpdate)>,
    room_id: &String,
    transaction_ids: &Vec<String>,
)
    ensures
        final(updates)@ == old(updates)@ + room_updates_of(*room_id, transaction_ids@),
{
    let mut i: usize = 0;
    while i < transaction_ids.len()
        invariant
            i <= transaction_ids.len(),
            updates@ == old(updates)@ + room_updates_of(*room_id, transaction_ids@.take(i as int)),
        decreases transaction_ids.len() - i,
    {
        updates.push(
            (
                room_id.clone(),
                RoomSendQueueUpdate::NewLocalEvent { transaction_id: transaction_ids[i].clone() },
            ),
        );
        i = i + 1;
        proof {
            assert(updates@ =~= old(updates)@ + room_updates_of(
                *room_id,
                transaction_ids@.take(i as int),
            ));
        }
    }
    proof {
        assert(transaction_ids@.take(i as int) =~= transaction_ids@);
    }
}

/// What a listener of all send queues is told at first.
pub fn initial_send_queue_updates(echoes: &Vec<(String, Vec<String>)>) -> (r: Vec<
    (String, RoomSendQueueUpdate),
>)
    ensures
        r@ == initial_updates_of(echoes@),
{
    let mut updates: Vec<(String, RoomSendQueueUpdate)> = Vec::new();
    let mut i: usize = 0;
    while i < echoes.len()
        invariant
            i <= echoes.len(),
            updates@ == initial_updates_of(echoes@.take(i as int)),
        decreases echoes.len() - i,
    {
        proof {
            assert(echoes@.take(i as int + 1).drop_last() =~= echoes@.take(i as int));
        }
        push_room_updates(&mut updates, &echoes[i].0, &echoes[i].1);
        i = i + 1;
    }
    proof {
        assert(echoes@.take(i as int) =~= echoes@);
    }
    updates
}

/// An answer to a GET request.
pub struct UrlResponse {
    /// The status of the answer, as a text.
    pub status: String,
    /// Whether the status is one of success.
    pub is_success: bool,
    pub bytes: Vec<u8>,
    /// The body as a text, if it can be read as one.
    pub text: Option<String>,
}

/// What a GET request gives: the body, or else the status with the body as details.
pub fn get_url(response: UrlResponse) -> (r: Result<Vec<u8>, ClientError>)
    ensures
        r == (if response.is_success {
            Ok::<Vec<u8>, ClientError>(response.bytes)
        } else {
            Err(ClientError::Generic { msg: response.status, details: response.text })
        }),
{
    if response.is_success {
        Ok(response.bytes)
    } else {
        Err(ClientError::Generic { msg: response.status, details: response.text })
    }
}

/// A room to join or to knock on.
pub struct JoinTarget {
    pub room_id_or_alias: String,
    /// The servers that may know the room.
    pub server_names: Vec<String>,
}

impl JoinTarget {
    /// A room to join or to knock on. It is named by its ID or an alias, which is
    /// looked at first, and the servers by their names.
    pub fn new(room_id_or_alias: String, server_names: Vec<String>) -> (r: Result<
        JoinTarget,
        ClientError,
    >)
        ensures
            match room_or_alias_id_refusal(room_id_or_alias@) {
                Some(texts) => r matches Err(error) && texts_error(texts, error),
                None => match first_server_refusal(server_names@) {
                    Some(texts) => r matches Err(error) && texts_error(texts, error),
                    None => r == Ok::<JoinTarget, ClientError>(
                        JoinTarget { room_id_or_alias, server_names },
                    ),
                },
            },
    {
        match check_room_or_alias_id(room_id_or_alias.as_str()) {
            Ok(()) => {},
            Err(error) => return Err(error),
        }
        match check_server_names(&server_names) {
            Ok(()) => Ok(JoinTarget { room_id_or_alias, server_names }),
            Err(error) => Err(error),
        }
    }
}

/// Checks the ID of a room that is to be previewed, and the servers that may know
/// it.
pub fn check_preview_of_room_id(room_id: &str, via_servers: &Vec<String>) -> (r: Result<
    (),
    ClientError,
>)
    ensures
        match room_id_refusal(room_id@) {
            Some(texts) => r matches Err(error) && context_error(
                "room_id is not a valid room id"@,
                texts.0,
                error,
            ),
            None => match first_server_refusal(via_servers@) {
                Some(texts) => r matches Err(error) && context_error(
                    "at least one `via` server name is invalid"@,
                    texts.0,
                    error,
                ),
                None => r is Ok,
            },
        },
{
    match parse_room_id(room_id) {
        Ok(()) => {},
        Err(error) => return Err(
            ClientError::from_context("room_id is not a valid room id", error.message.as_str()),
        ),
    }
    match check_server_names(via_servers) {
        Ok(()) => Ok(()),
        Err(ClientError::Generic { msg, .. }) => Err(
            ClientError::from_context("at least one `via` server name is invalid", msg.as_str()),
        ),
        Err(error) => Err(error),
    }
}

/// Checks the alias of a room that is to be previewed.
pub fn check_preview_of_room_alias(room_alias: &str) -> (r: Result<(), ClientError>)
    ensures
        match room_alias_id_refusal(room_alias@) {
            Some(texts) => r matches Err(error) && context_error(
                "room_alias is not a valid room alias"@,
                texts.0,
                error,
            ),
            None => r is Ok,
        },
{
    match parse_room_alias_id(room_alias) {
        Ok(()) => Ok(()),
        Err(error) => Err(
            ClientError::from_context(
                "room_alias is not a valid room alias",
                error.message.as_str(),
            ),
        ),
    }
}

/// The room that an alias stands for.
pub struct ResolvedRoomAlias {
    pub room_id: String,
    /// The servers that may know the room.
    pub servers: Vec<String>,
}

/// A request that failed.
pub struct RequestFailure {
    /// The error code that the homeserver answered with, if it did.
    pub errcode: Option<String>,
    /// The text of the error.
    pub message: String,
    /// Its debug text.
    pub debug: String,
}

impl RequestFailure {
    /// Whether the homeserver says that there is no such thing.
    pub open spec fn is_not_found(self) -> bool {
        self.errcode is Some && self.errcode->0@ == "M_NOT_FOUND"@
    }
}

/// The room that an alias stands for, from the answer of the homeserver. An alias that
/// is not known stands for none.
pub fn resolve_room_alias(response: Result<ResolvedRoomAlias, RequestFailure>) -> (r: Result<
    Option<ResolvedRoomAlias>,
    ClientError,
>)
    ensures
        match response {
            Ok(resolved) => r == Ok::<Option<ResolvedRoomAlias>, ClientError>(Some(resolved)),
            Err(failure) => if failure.is_not_found() {
                r == Ok::<Option<ResolvedRoomAlias>, ClientError>(None)
            } else {
                r matches Err(error) && texts_error((failure.message@, failure.debug@), error)
            },
        },
{
    match response {
        Ok(resolved) => Ok(Some(resolved)),
        Err(failure) => {
            let is_not_found: bool = match &failure.errcode {
                Some(errcode) => same(errcode.as_str(), "M_NOT_FOUND"),
                None => false,
            };
            if is_not_found {
                Ok(None)
            } else {
                Err(ClientError::from_err(failure.message.as_str(), failure.debug))
            }
        },
    }
}

/// Whether an alias stands for a room, from the answer of the homeserver.
pub fn room_alias_exists(response: Result<ResolvedRoomAlias, RequestFailure>) -> (r: Result<
    bool,
    ClientError,
>)
    ensures
        match response {
            Ok(_) => r == Ok::<bool, ClientError>(true),
            Err(failure) => if failure.is_not_found() {
                r == Ok::<bool, ClientError>(false)
            } else {
                r matches Err(error) && texts_error((failure.message@, failure.debug@), error)
            },
        },
{
    match resolve_room_alias(response) {
        Ok(resolved) => Ok(resolved.is_some()),
        Err(error) => Err(error),
    }
}

/// Whether one of the texts is this one.
fn has_text(texts: &Vec<String>, text: &str) -> (r: bool)
    ensures
        r == (exists|i: int| 0 <= i < texts@.len() && (#[trigger] texts@[i])@ == text@),
{
    let mut i: usize = 0;
    while i < texts.len()
        invariant
            i <= texts.len(),
            forall|j: int| 0 <= j < i ==> (#[trigger] texts@[j])@ != text@,
        decreases texts.len() - i,
    {
        if same(texts[i].as_str(), text) {
            return true;
        }
        i = i + 1;
    }
    false
}

/// Whether rooms can be reported, from the versions of Matrix that the homeserver
/// supports.
pub fn is_report_room_api_supported(versions: &Vec<String>) -> (r: bool)
    ensures
        r == (exists|i: int| 0 <= i < versions@.len() && (#[trigger] versions@[i])@ == "v1.13"@),
{
    has_text(versions, "v1.13")
}

/// What relays the media of calls.
pub enum RtcFocus {
    LiveKit { service_url: String },
    Other,
}

/// Whether calls can be placed with LiveKit.
pub fn is_livekit_rtc_supported(foci: &Vec<RtcFocus>) -> (r: bool)
    ensures
        r == (exists|i: int| 0 <= i < foci@.len() && (#[trigger] foci@[i]) is LiveKit),
{
    let mut i: usize = 0;
    while i < foci.len()
        invariant
            i <= foci.len(),
            forall|j: int| 0 <= j < i ==> !((#[trigger] foci@[j]) is LiveKit),
        decreases foci.len() - i,
    {
        if let RtcFocus::LiveKit { .. } = &foci[i] {
            return true;
        }
        i = i + 1;
    }
    false
}

/// Whether the account can be deactivated: it has to be one of the homeserver itself.
pub fn can_deactivate_account(auth_api: &Option<AuthApi>) -> (r: bool)
    ensures
        r == (auth_api matches Some(api) && api is Matrix),
{
    match auth_api {
        Some(AuthApi::Matrix { .. }) => true,
        _ => false,
    }
}

/// Whether the account may be managed at a URL: only with OAuth 2.0.
pub fn may_have_account_url(auth_api: &Option<AuthApi>) -> (r: bool)
    ensures
        r == (auth_api matches Some(api) && api is OAuth),
{
    match auth_api {
        Some(AuthApi::OAuth { .. }) => true,
        _ => false,
    }
}

/// Whether a login can be granted with a QR code, from the unstable features of the
/// homeserver.
pub fn is_login_with_qr_code_supported(
    auth_api: &Option<AuthApi>,
    unstable_features: &Vec<String>,
) -> (r: bool)
    ensures
        r == ((auth_api matches Some(api) && api is OAuth) && exists|i: int|
            0 <= i < unstable_features@.len() && (#[trigger] unstable_features@[i])@
                == "org.matrix.msc4108"@),
{
    may_have_account_url(auth_api) && has_text(unstable_features, "org.matrix.msc4108")
}

/// What a user wants to do where the account is managed.
pub enum AccountManagementAction {
    Profile,
    SessionsList,
    SessionView { device_id: String },
    SessionEnd { device_id: String },
    AccountDeactivate,
    CrossSigningReset,
}

/// How notifications are fetched. `S` is a sync service.
pub enum NotificationProcessSetup<S> {
    /// Several processes may run.
    MultipleProcesses,
    /// All is done in one process, with this sync service.
    SingleProcess { sync_service: S },
}

/// A step of clearing the caches.
pub enum CacheStep {
    /// The sessions of the sync service expire.
    ExpireSessions,
    /// Nothing more is sent.
    DisableSendQueues,
    /// The media cache is cleaned as its policy says.
    CleanMedia,
    /// The events of all rooms are dropped.
    ClearEventCache,
    /// A file of the state store is removed, if there is one.
    RemoveStoreFile { name: String },
}

/// The names of the files of the state store: the database, its write-ahead log and
/// its shared memory.
pub open spec fn store_files(database: Seq<char>) -> Seq<Seq<char>> {
    seq![database, database + ".wal"@, database + ".shm"@]
}

/// The steps of clearing the caches, without the files.
pub open spec fn cache_steps(has_sync_service: bool) -> Seq<CacheStep> {
    let rest = seq![
        CacheStep::DisableSendQueues,
        CacheStep::CleanMedia,
        CacheStep::ClearEventCache,
    ];
    if has_sync_service {
        seq![CacheStep::ExpireSessions] + rest
    } else {
        rest
    }
}

impl Client {
    /// The content that is set for a type of account data, as it is written in the
    /// text that is given, which has to be JSON.
    pub fn set_account_data(content: String) -> (r: Result<String, ClientError>)
        ensures
            match raw_json_reading(content@) {
                Ok(json) => r matches Ok(set) && set@ == json,
                Err(texts) => r matches Err(error) && texts_error(texts, error),
            },
    {
        match read_raw_json(content) {
            Ok(json) => Ok(json),
            Err(error) => Err(ClientError::from_json_error(error)),
        }
    }

    /// The steps of clearing the caches, in their order. What is on disk comes last.
    pub fn clear_caches(&self, has_sync_service: bool, database: &str) -> (r: Vec<CacheStep>)
        ensures
            r@.take(cache_steps(has_sync_service).len() as int) == cache_steps(has_sync_service),
            r@.len() == cache_steps(has_sync_service).len() + if self.store_path is Some {
                3int
            } else {
                0
            },
            forall|i: int|
                cache_steps(has_sync_service).len() <= i < r@.len() ==> (#[trigger] r@[i]) is RemoveStoreFile
                    && r@[i]->name@ == store_files(database@)[i - cache_steps(
                    has_sync_service,
                ).len()],
    {
        let mut steps: Vec<CacheStep> = Vec::new();
        if has_sync_service {
            steps.push(CacheStep::ExpireSessions);
        }
        steps.push(CacheStep::DisableSendQueues);
        steps.push(CacheStep::CleanMedia);
        steps.push(CacheStep::ClearEventCache);
        proof {
            assert(steps@ =~= cache_steps(has_sync_service));
        }
        if self.store_path.is_some() {
            steps.push(CacheStep::RemoveStoreFile { name: database.to_owned() });
            steps.push(CacheStep::RemoveStoreFile { name: concat2(database, ".wal") });
            steps.push(CacheStep::RemoveStoreFile { name: concat2(database, ".shm") });
        }
        proof {
            assert(steps@.take(cache_steps(has_sync_service).len() as int) =~= cache_steps(
                has_sync_service,
            ));
        }
        steps
    }
}

/// The error of a file of the state store that could not be removed.
pub fn store_file_error(path: &str, cause: &str) -> (r: ClientError)
    ensures
        bare_error("couldn't delete the state store file "@ + path@ + ": "@ + cause@, r),
{
    let start: String = concat2("couldn't delete the state store file ", path);
    let msg: String = concat3(start.as_str(), ": ", cause);
    proof {
        assert(msg@ =~= "couldn't delete the state store file "@ + path@ + ": "@ + cause@);
    }
    new_bare_error(msg.as_str())
}

/// A room whose changes somebody is told of.
pub struct RoomInfoWatch {
    pub room_id: String,
}

impl RoomInfoWatch {
    /// A room whose changes somebody is told of, named by its ID.
    pub fn new(room_id: String) -> (r: Result<RoomInfoWatch, ClientError>)
        ensures
            match room_id_refusal(room_id@) {
                None => r == Ok::<RoomInfoWatch, ClientError>(RoomInfoWatch { room_id }),
                Some(texts) => r matches Err(error) && texts_error(texts, error),
            },
    {
        match check_room_id(room_id.as_str()) {
            Ok(()) => Ok(RoomInfoWatch { room_id }),
            Err(error) => Err(error),
        }
    }

    /// Whether a change is one of the room.
    pub fn concerns(&self, updated_room_id: &str) -> (r: bool)
        ensures
            r == (updated_room_id@ == self.room_id@),
    {
        same(updated_room_id, self.room_id.as_str())
    }
}

/// The profile of a user.
pub struct UserProfile {
    pub user_id: String,
    pub display_name: Option<String>,
    pub avatar_url: Option<String>,
}

impl UserProfile {
    /// The profile of a user, from what was read of its fields.
    pub fn fetched(
        user_id: String,
        display_name: Result<Option<String>, JsonError>,
        avatar_url: Result<Option<String>, JsonError>,
    ) -> (r: Result<UserProfile, ClientError>)
        ensures
            match (display_name, avatar_url) {
                (Err(json_error), _) => r matches Err(error) && texts_error(
                    (json_error.message@, json_error.debug@),
                    error,
                ),
                (Ok(_), Err(json_error)) => r matches Err(error) && texts_error(
                    (json_error.message@, json_error.debug@),
                    error,
                ),
                (Ok(display_name), Ok(avatar_url)) => r == Ok::<UserProfile, ClientError>(
                    UserProfile { user_id, display_name, avatar_url },
                ),
            },
    {
        let display_name: Option<String> = match display_name {
            Ok(name) => name,
            Err(error) => return Err(ClientError::from_json_error(error)),
        };
        let avatar_url: Option<String> = match avatar_url {
            Ok(url) => url,
            Err(error) => return Err(ClientError::from_json_error(error)),
        };
        Ok(UserProfile { user_id, display_name, avatar_url })
    }
}

/// The users that were found.
pub struct SearchUsersResults {
    pub results: Vec<UserProfile>,
    /// Whether there are more.
    pub limited: bool,
}

/// An emoji that was used for reactions.
pub struct RecentEmoji {
    pub emoji: String,
    /// How many times it was used.
    pub count: u64,
}

/// The ignored users; none if nothing is known of them.
pub fn ignored_users(content: Option<Vec<String>>) -> (r: Vec<String>)
    ensures
        r@ == (match content {
            Some(user_ids) => user_ids@,
            None => Seq::empty(),
        }),
{
    match content {
        Some(user_ids) => user_ids,
        None => Vec::new(),
    }
}

/// Before anything is dropped, nothing more is sent, and the sessions of the sync
/// service have expired.
pub proof fn caches_are_cleared_at_rest(has_sync_service: bool, i: int, j: int)
    requires
        0 <= i < cache_steps(has_sync_service).len(),
        0 <= j < cache_steps(has_sync_service).len(),
        cache_steps(has_sync_service)[i] is ExpireSessions || cache_steps(
            has_sync_service,
        )[i] is DisableSendQueues,
        cache_steps(has_sync_service)[j] is CleanMedia || cache_steps(
            has_sync_service,
        )[j] is ClearEventCache,
    ensures
        i < j,
{
}

/// A session that was kept is taken up with its own login, its own sliding sync and the
/// rooms that were asked for, or all of them.
pub proof fn kept_sessions_are_restored(
    user: crate::session::UserSession,
    client_id: String,
    homeserver: String,
    version: SlidingSyncVersion,
    session: Session,
    settings: RoomLoadSettings,
    restored: Result<Restore, ClientError>,
    all: Result<Restore, ClientError>,
)
    requires
        call_ensures(
            Session::new,
            (
                AuthApi::OAuth { session: Some(user), client_id: Some(client_id) },
                homeserver,
                version,
            ),
            Ok::<Session, ClientError>(session),
        ),
        user_id_refusal(user.user_id@) is None,
        settings matches RoomLoadSettings::One { room_id } ==> room_id_refusal(room_id@) is None,
        call_ensures(
            restore_session_with,
            (
                session,
                Some(Ok::<OidcSessionData, JsonError>(OidcSessionData { client_id })),
                settings,
            ),
            restored,
        ),
        call_ensures(
            restore_session,
            (session, Some(Ok::<OidcSessionData, JsonError>(OidcSessionData { client_id }))),
            all,
        ),
    ensures
        restored == Ok::<Restore, ClientError>(
            Restore {
                session: AuthSession::OAuth { client_id, user },
                room_load_settings: settings,
                sliding_sync_version: version,
            },
        ),
        all == Ok::<Restore, ClientError>(
            Restore {
                session: AuthSession::OAuth { client_id, user },
                room_load_settings: RoomLoadSettings::All,
                sliding_sync_version: version,
            },
        ),
{
}

/// The same for a login with the authentication of the homeserver; and a room that is not
/// named by its ID is refused.
pub proof fn kept_matrix_sessions_are_restored(
    user: crate::session::UserSession,
    homeserver: String,
    version: SlidingSyncVersion,
    session: Session,
    settings: RoomLoadSettings,
    restored: Result<Restore, ClientError>,
    all: Result<Restore, ClientError>,
)
    requires
        call_ensures(
            Session::new,
            (AuthApi::Matrix { session: Some(user) }, homeserver, version),
            Ok::<Session, ClientError>(session),
        ),
        user_id_refusal(user.user_id@) is None,
        call_ensures(restore_session_with, (session, None, settings), restored),
        call_ensures(restore_session, (session, None), all),
    ensures
        restored is Ok <==> (settings matches RoomLoadSettings::One { room_id } ==> room_id_refusal(
            room_id@,
        ) is None),
        restored matches Ok(restore) ==> restore == (Restore {
            session: AuthSession::Matrix { user },
            room_load_settings: settings,
            sliding_sync_version: version,
        }),
        all == Ok::<Restore, ClientError>(
            Restore {
                session: AuthSession::Matrix { user },
                room_load_settings: RoomLoadSettings::All,
                sliding_sync_version: version,
            },
        ),
{
}

/// The session that a client hands out to be kept is that of its login, at its homeserver
/// and with its sliding sync.
pub proof fn clients_hand_out_their_session(
    client: Client,
    user: crate::session::UserSession,
    handed_out: Result<Session, ClientError>,
    without: Result<Session, ClientError>,
)
    requires
        call_ensures(
            Client::session,
            (&client, Some(AuthApi::Matrix { session: Some(user) })),
            handed_out,
        ),
        call_ensures(Client::session, (&client, None), without),
    ensures
        without is Err,
        handed_out matches Ok(session) && session.homeserver_url == client.homeserver
            && session.sliding_sync_version == client.sliding_sync_version && session.user_id
            == user.user_id && session.device_id == user.device_id && session.access_token
            == user.tokens.access_token && session.refresh_token == user.tokens.refresh_token
            && session.oidc_data is None,
{
}

/// A new client knows what it was made with and tells nobody yet. Locking refreshes takes
/// somebody who keeps sessions, and what was asked for is what is to be done.
pub proof fn new_clients_know_themselves(
    user_id: Option<String>,
    device_id: Option<String>,
    homeserver: String,
    version: SlidingSyncVersion,
    lock: bool,
    has_session_delegate: bool,
    store_path: Option<String>,
    made: Result<(Client, ClientSetup), ClientError>,
    told: (Result<String, ClientError>, Result<String, ClientError>),
)
    requires
        call_ensures(
            Client::new,
            (
                user_id,
                device_id,
                homeserver,
                version,
                lock,
                has_session_delegate,
                store_path,
            ),
            made,
        ),
        made matches Ok((client, _)) ==> call_ensures(Client::user_id, (&client,), told.0),
        made matches Ok((client, _)) ==> call_ensures(Client::device_id, (&client,), told.1),
    ensures
        made is Ok <==> (lock ==> has_session_delegate),
        made matches Ok((client, setup)) ==> {
            &&& told.0 is Ok <==> user_id is Some
            &&& told.0 is Ok ==> Some(told.0->Ok_0) == user_id
            &&& told.1 is Ok <==> device_id is Some
            &&& told.1 is Ok ==> Some(told.1->Ok_0) == device_id
            &&& client.homeserver == homeserver && client.sliding_sync_version == version
            &&& client.store_path == store_path
            &&& !client.has_delegate && !client.has_utd_delegate
                && !client.has_verification_controller
            &&& setup.enable_refresh_lock == lock
            &&& setup.set_session_callbacks == has_session_delegate
        },
{
}

/// Whoever is told of errors of the authentication is told of a token that is not known any
/// more, with the kind of logout, and of nothing else; nobody is told where there is nobody.
pub proof fn logouts_are_told(client: Client, soft_logout: bool, told: Option<bool>, other: Option<bool>)
    requires
        call_ensures(
            Client::process_session_change,
            (&client, SessionChange::UnknownToken { soft_logout }),
            told,
        ),
        call_ensures(
            Client::process_session_change,
            (&client, SessionChange::TokensRefreshed),
            other,
        ),
    ensures
        told is Some <==> client.has_delegate,
        told is Some ==> told->0 == soft_logout,
        other is None,
{
}

/// Verification requests are answered once there is somebody to answer them, and no other
/// message is. Until there is, the identity of the user who is logged in is fetched.
pub proof fn verification_needs_a_controller(
    client: Client,
    msgtype: &str,
    answered: bool,
    step: Result<ControllerStep, ClientError>,
)
    requires
        call_ensures(Client::is_answered_request, (&client, msgtype), answered),
        call_ensures(Client::get_session_verification_controller, (&client,), step),
    ensures
        answered ==> client.has_verification_controller && msgtype@
            == "m.key.verification.request"@,
        client.has_verification_controller ==> (step matches Ok(step) && step is UseKept),
        !client.has_verification_controller ==> !answered && (step is Ok <==> client.user_id is Some),
        !client.has_verification_controller && client.user_id is Some ==> step == Ok::<
            ControllerStep,
            ClientError,
        >(ControllerStep::FetchIdentity { user_id: client.user_id->0 }),
        client.has_verification_controller && msgtype@ == "m.key.verification.request"@
            ==> answered,
{
}

/// What stands behind the first colon of the user's ID is the server name.
pub proof fn server_names_stand_in_user_ids(client: Client, told: Result<String, ClientError>)
    requires
        call_ensures(Client::user_id_server_name, (&client,), told),
    ensures
        told is Ok <==> (client.user_id matches Some(id) && user_id_refusal(id@) is None),
        told matches Ok(name) ==> exists|local: Seq<char>|
            #[trigger] (local + seq![':'] + name@) == client.user_id->0@ && !local.contains(':'),
{
    reveal_strlit(":");
    assert(":"@ =~= seq![':']);
    if let Ok(name) = told {
        crate::text::cut_texts_can_be_joined(client.user_id->0@, ':');
        let parts = split_once_spec(client.user_id->0@, seq![':'])->0;
        assert(parts.0 + seq![':'] + name@ == client.user_id->0@);
    }
}

/// An alias stands for a room, for none, or it could not be found out: then the error is
/// handed on. It exists if and only if it stands for one.
pub proof fn aliases_are_resolved(
    response: Result<ResolvedRoomAlias, RequestFailure>,
    resolved: Result<Option<ResolvedRoomAlias>, ClientError>,
    exists_one: Result<bool, ClientError>,
)
    requires
        call_ensures(resolve_room_alias, (response,), resolved),
        call_ensures(room_alias_exists, (response,), exists_one),
    ensures
        response matches Ok(room) ==> resolved == Ok::<Option<ResolvedRoomAlias>, ClientError>(
            Some(room),
        ),
        resolved is Ok <==> exists_one is Ok,
        resolved is Ok ==> (exists_one->Ok_0 <==> resolved->Ok_0 is Some),
        response matches Err(failure) ==> (resolved is Ok <==> failure.errcode is Some
            && failure.errcode->0@ == "M_NOT_FOUND"@),
        response is Err && resolved is Ok ==> resolved->Ok_0 is None,
        response matches Err(failure) ==> (resolved matches Err(error) ==> texts_error(
            (failure.message@, failure.debug@),
            error,
        )),
{
}

/// What is downloaded is what the server sent, if it succeeded; otherwise the error tells
/// the status and what was sent.
pub proof fn downloads_are_what_was_sent(response: UrlResponse, r: Result<Vec<u8>, ClientError>)
    requires
        call_ensures(get_url, (response,), r),
    ensures
        r is Ok <==> response.is_success,
        r matches Ok(bytes) ==> bytes == response.bytes,
        r matches Err(error) ==> error == (ClientError::Generic {
            msg: response.status,
            details: response.text,
        }),
{
}

/// A room is joined by what it is named by, with the servers that were named, if all of them
/// are named rightly.
pub proof fn rooms_are_joined_by_name(
    name: String,
    servers: Vec<String>,
    r: Result<JoinTarget, ClientError>,
)
    requires
        call_ensures(JoinTarget::new, (name, servers), r),
    ensures
        r is Ok <==> room_or_alias_id_refusal(name@) is None && first_server_refusal(servers@) is None,
        r matches Ok(target) ==> target.room_id_or_alias == name && target.server_names == servers,
        room_or_alias_id_refusal(name@) matches Some(texts) ==> (r matches Err(error)
            && texts_error(texts, error)),
{
}

/// With password logins accounts can be deactivated, with OAuth 2.0 they are managed at a
/// URL, and never both; a login is granted with a QR code only where the latter holds and
/// the homeserver says so.
pub proof fn accounts_are_managed_one_way(
    auth_api: Option<AuthApi>,
    features: Vec<String>,
    deactivate: bool,
    url: bool,
    qr_code: bool,
)
    requires
        call_ensures(can_deactivate_account, (&auth_api,), deactivate),
        call_ensures(may_have_account_url, (&auth_api,), url),
        call_ensures(is_login_with_qr_code_supported, (&auth_api, &features), qr_code),
    ensures
        !(deactivate && url),
        auth_api is None ==> !deactivate && !url && !qr_code,
        auth_api matches Some(AuthApi::Matrix { .. }) ==> deactivate,
        auth_api matches Some(AuthApi::OAuth { .. }) ==> url,
        auth_api matches Some(AuthApi::Unknown) ==> !deactivate && !url,
        qr_code ==> url && features@.len() > 0,
{
}

/// Only updates of the room that is watched concern the watcher, and a profile shows what
/// was fetched of it.
pub proof fn rooms_are_watched_by_their_id(
    room_id: String,
    watch: Result<RoomInfoWatch, ClientError>,
    updated: &str,
    concerns: bool,
)
    requires
        call_ensures(RoomInfoWatch::new, (room_id,), watch),
        watch matches Ok(watch) ==> call_ensures(
            RoomInfoWatch::concerns,
            (&watch, updated),
            concerns,
        ),
    ensures
        watch is Ok <==> room_id_refusal(room_id@) is None,
        watch is Ok ==> (concerns <==> updated@ == room_id@),
{
}

/// A profile shows what was fetched of the user, each thing by its own name, and is an error
/// where something of it could not be read.
pub proof fn profiles_show_what_was_fetched(
    user_id: String,
    display_name: Result<Option<String>, JsonError>,
    avatar_url: Result<Option<String>, JsonError>,
    r: Result<UserProfile, ClientError>,
)
    requires
        call_ensures(UserProfile::fetched, (user_id, display_name, avatar_url), r),
    ensures
        r is Ok <==> display_name is Ok && avatar_url is Ok,
        r matches Ok(profile) ==> profile.user_id == user_id && profile.display_name
            == display_name->Ok_0 && profile.avatar_url == avatar_url->Ok_0,
{
}

/// The login with OpenID Connect asks for what was asked for, each thing by its own name.
pub proof fn oidc_logins_ask_for_what_was_asked_for(
    configuration: OidcConfiguration,
    prompt: Option<OidcPrompt>,
    login_hint: Option<String>,
    device_id: Option<String>,
    scopes: Option<Vec<String>>,
    r: Result<OidcLogin, OidcError>,
)
    requires
        call_ensures(
            url_for_oidc,
            (&configuration, prompt, login_hint, device_id, scopes),
            r,
        ),
    ensures
        r matches Ok(login) ==> {
            &&& login.login_hint == login_hint && login.device_id == device_id
            &&& login.additional_scopes == scopes
            &&& login.prompt is Some <==> prompt is Some
            &&& prompt matches Some(OidcPrompt::Create) ==> login.prompt->0@ == "create"@
            &&& prompt matches Some(OidcPrompt::Login) ==> login.prompt->0@ == "login"@
            &&& prompt matches Some(OidcPrompt::Consent) ==> login.prompt->0@ == "consent"@
            &&& prompt matches Some(OidcPrompt::Unknown { value }) ==> login.prompt->0@ == value@
            &&& login.registrations.registrations_file
                == configuration.dynamic_registrations_file
            &&& url_reading(configuration.redirect_uri@) == Some(login.redirect_uri@)
        },
        url_reading(configuration.redirect_uri@) is None ==> (r matches Err(error)
            && error is CallbackUrlInvalid),
{
}

/// Before all, nothing more is synced or sent; then caches go, and the files of the store
/// last, those of an on-disk store only, all three of them.
pub proof fn caches_and_store_files_go(
    client: Client,
    has_sync_service: bool,
    database: &str,
    steps: Vec<CacheStep>,
)
    requires
        call_ensures(Client::clear_caches, (&client, has_sync_service, database), steps),
    ensures
        ({
            let n = if has_sync_service { 4int } else { 3 };
            &&& has_sync_service <==> steps@[0] is ExpireSessions
            &&& steps@[n - 3] is DisableSendQueues && steps@[n - 2] is CleanMedia && steps@[n
                - 1] is ClearEventCache
            &&& client.store_path is None ==> steps@.len() == n
            &&& client.store_path is Some ==> {
                &&& steps@.len() == n + 3
                &&& steps@[n] matches CacheStep::RemoveStoreFile { name } && name@ == database@
                &&& steps@[n + 1] matches CacheStep::RemoveStoreFile { name } && name@ == database@
                    + ".wal"@
                &&& steps@[n + 2] matches CacheStep::RemoveStoreFile { name } && name@ == database@
                    + ".shm"@
            }
        }),
{
    let head = cache_steps(has_sync_service);
    assert(head.len() == if has_sync_service { 4int } else { 3 });
    assert forall|i: int| 0 <= i < head.len() implies steps@[i] == head[i] by {
        assert(steps@.take(head.len() as int)[i] == head[i]);
    }
    assert(steps@[0] == head[0] && steps@[1] == head[1] && steps@[2] == head[2]);
    if has_sync_service {
        assert(steps@[3] == head[3]);
    }
    if client.store_path is Some {
        let n = head.len() as int;
        let files = store_files(database@);
        assert(files[0] == database@ && files[1] == database@ + ".wal"@ && files[2] == database@
            + ".shm"@);
        assert(steps@[n] is RemoveStoreFile && steps@[n]->name@ == files[0]);
        assert(steps@[n + 1] is RemoveStoreFile && steps@[n + 1]->name@ == files[1]);
        assert(steps@[n + 2] is RemoveStoreFile && steps@[n + 2]->name@ == files[2]);
    }
}

/// Who is asked for is told where they are known: the user who is logged in, or the name that was
/// fetched.
pub proof fn users_are_told_where_known(
    client: Client,
    user: Result<String, ClientError>,
    fetched: Option<String>,
    name: Result<String, ClientError>,
)
    requires
        call_ensures(Client::session_user, (&client,), user),
        call_ensures(Client::display_name, (fetched,), name),
    ensures
        user is Ok <==> client.user_id is Some,
        user is Ok ==> Some(user->Ok_0) == client.user_id,
        name is Ok <==> fetched is Some,
        name is Ok ==> Some(name->Ok_0) == fetched,
{
}

/// Of each message that waits to be sent a listener is told that it is new, under its room; rooms
/// and messages stay in their order.
pub proof fn waiting_messages_are_told(
    echoes: Seq<(String, Vec<String>)>,
    room_id: String,
    ids: Vec<String>,
    i: int,
)
    ensures
        initial_updates_of(Seq::<(String, Vec<String>)>::empty()).len() == 0,
        ({
            let before = initial_updates_of(echoes);
            let all = initial_updates_of(echoes.push((room_id, ids)));
            &&& all.len() == before.len() + ids@.len()
            &&& 0 <= i < before.len() ==> all[i] == before[i]
            &&& before.len() <= i < all.len() ==> all[i].0 == room_id && all[i].1
                == (RoomSendQueueUpdate::NewLocalEvent {
                transaction_id: ids@[i - before.len()],
            })
        }),
{
    assert(echoes.push((room_id, ids)).drop_last() =~= echoes);
}

/// A room is previewed if it and the servers are named rightly.
pub proof fn previews_are_of_named_rooms(
    room_id: &str,
    via: Vec<String>,
    by_id: Result<(), ClientError>,
    alias: &str,
    by_alias: Result<(), ClientError>,
    settings: RoomLoadSettings,
    loaded: Result<RoomLoadSettings, String>,
)
    requires
        call_ensures(check_preview_of_room_id, (room_id, &via), by_id),
        call_ensures(check_preview_of_room_alias, (alias,), by_alias),
        call_ensures(RoomLoadSettings::checked, (settings,), loaded),
    ensures
        by_id is Ok <==> room_id_refusal(room_id@) is None && first_server_refusal(via@) is None,
        by_alias is Ok <==> room_alias_id_refusal(alias@) is None,
        settings is All ==> loaded is Ok,
        settings matches RoomLoadSettings::One { room_id } ==> (loaded is Ok <==> room_id_refusal(
            room_id@,
        ) is None),
        loaded is Ok ==> loaded->Ok_0 == settings,
{
}

/// Callbacks and account data are taken as they read, and refused where they do not; ignored users
/// are those of the account data.
pub proof fn texts_are_taken_as_they_read(
    callback: &str,
    url: Result<String, OidcError>,
    content: String,
    set: Result<String, ClientError>,
    users: Option<Vec<String>>,
    ignored: Vec<String>,
)
    requires
        call_ensures(login_with_oidc_callback, (callback,), url),
        call_ensures(Client::set_account_data, (content,), set),
        call_ensures(ignored_users, (users,), ignored),
    ensures
        url is Ok <==> url_reading(callback@) is Some,
        url is Ok ==> Some(url->Ok_0@) == url_reading(callback@),
        set is Ok <==> raw_json_reading(content@) is Ok,
        set is Ok ==> set->Ok_0@ == raw_json_reading(content@)->Ok_0,
        users is Some ==> ignored@ == users->0@,
        users is None ==> ignored@.len() == 0,
{
}

/// There is one to be told of errors of the authentication, and one of messages that cannot be
/// decrypted: whoever comes first. Nothing else of the client changes.
pub proof fn the_first_delegate_stays(
    a: &mut Client,
    has_delegate: bool,
    r: Result<bool, ClientError>,
    b: &mut Client,
    utd: Result<(), ClientError>,
)
    requires
        call_ensures(Client::set_delegate, (a, has_delegate), r),
        call_ensures(Client::set_utd_delegate, (b,), utd),
    ensures
        r is Ok <==> !mut_ref_current(a).has_delegate,
        r is Ok ==> r->Ok_0 == has_delegate,
        mut_ref_future(a) == (Client {
            has_delegate: mut_ref_current(a).has_delegate || has_delegate,
            ..mut_ref_current(a)
        }),
        utd is Ok <==> !mut_ref_current(b).has_utd_delegate,
        mut_ref_future(b) == (Client { has_utd_delegate: true, ..mut_ref_current(b) }),
{
}

/// Verification requests can be answered once the identity was found, and it is handed on.
pub proof fn identities_are_handed_on<I>(a: &mut Client, identity: Option<I>, r: Result<I, ClientError>)
    requires
        call_ensures(Client::found_identity::<I>, (a, identity), r),
    ensures
        r is Ok <==> identity is Some,
        r is Ok ==> Some(r->Ok_0) == identity,
        mut_ref_future(a) == (Client {
            has_verification_controller: mut_ref_current(a).has_verification_controller
                || identity is Some,
            ..mut_ref_current(a)
        }),
{
}

/// One more room with messages that wait to be sent is told of after all the others, message by
/// message, and changes nothing of what is told of those.
pub proof fn waiting_messages_are_told_once(
    echoes: Vec<(String, Vec<String>)>,
    more: Vec<(String, Vec<String>)>,
    room_id: String,
    ids: Vec<String>,
    before: Vec<(String, RoomSendQueueUpdate)>,
    all: Vec<(String, RoomSendQueueUpdate)>,
    i: int,
)
    requires
        more@ == echoes@.push((room_id, ids)),
        call_ensures(initial_send_queue_updates, (&echoes,), before),
        call_ensures(initial_send_queue_updates, (&more,), all),
    ensures
        echoes@.len() == 0 ==> before@.len() == 0,
        all@.len() == before@.len() + ids@.len(),
        0 <= i < before@.len() ==> all@[i] == before@[i],
        before@.len() <= i < all@.len() ==> all@[i] == (
            room_id,
            RoomSendQueueUpdate::NewLocalEvent { transaction_id: ids@[i - before@.len()] },
        ),
{
    assert(echoes@.push((room_id, ids)).drop_last() =~= echoes@);
}

} // verus!
