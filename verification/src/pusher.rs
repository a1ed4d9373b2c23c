//! Pushers: where a homeserver sends notifications to.

use vstd::prelude::*;

use crate::error::{text_error, ClientError};
use crate::json::{json_reading, read_json};

verus! {

/// What tells pushers apart.
pub struct PusherIdentifiers {
    pub pushkey: String,
    pub app_id: String,
}

/// What is sent with a notification.
#[derive(Clone, Copy, Debug, PartialEq, Eq, Structural)]
pub enum PushFormat {
    /// Only the ID of the event.
    EventIdOnly,
}

/// A pusher that sends to a URL.
pub struct HttpPusherData {
    pub url: String,
    pub format: Option<PushFormat>,
    /// What is added to each notification, in JSON.
    pub default_payload: Option<String>,
}

/// Where a pusher sends to.
pub enum PusherKind {
    Http { data: HttpPusherData },
    Email,
}

/// The pusher to be registered: what is added to each notification has to be JSON,
/// and is taken in its compact form.
pub open spec fn checked_pusher(kind: PusherKind, r: Result<PusherKind, ClientError>) -> bool {
    match kind {
        PusherKind::Email => r matches Ok(made) && made is Email,
        PusherKind::Http { data } => match data.default_payload {
            None => r == Ok::<PusherKind, ClientError>(kind),
            Some(payload) => match json_reading(payload@) {
                Ok(compact) => {
                    &&& r matches Ok(PusherKind::Http { data: made })
                    &&& made.url == data.url
                    &&& made.format == data.format
                    &&& made.default_payload is Some
                    &&& made.default_payload->0@ == compact
                },
                Err(texts) => r matches Err(error) && text_error(texts.0, error),
            },
        },
    }
}

impl PusherKind {
    /// The pusher to be registered.
    pub fn checked(self) -> (r: Result<PusherKind, ClientError>)
        ensures
            checked_pusher(self, r),
    {
        match self {
            PusherKind::Email => Ok(PusherKind::Email),
            PusherKind::Http { data } => {
                let default_payload: Option<String> = match data.default_payload {
                    Some(payload) => match read_json(payload.as_str()) {
                        Ok(compact) => Some(compact),
                        Err(error) => return Err(ClientError::from_text(error.message.as_str())),
                    },
                    None => None,
                };
                Ok(
                    PusherKind::Http {
                        data: HttpPusherData {
                            url: data.url,
                            format: data.format,
                            default_payload,
                        },
                    },
                )
            },
        }
    }
}

/// A pusher to be registered.
pub struct PusherInit {
    pub identifiers: PusherIdentifiers,
    pub kind: PusherKind,
    pub app_display_name: String,
    pub device_display_name: String,
    pub profile_tag: Option<String>,
    pub lang: String,
}

impl PusherInit {
    /// The pusher to be registered.
    pub fn checked(self) -> (r: Result<PusherInit, ClientError>)
        ensures
            match r {
                Ok(init) => {
                    &&& checked_pusher(self.kind, Ok::<PusherKind, ClientError>(init.kind))
                    &&& init == (PusherInit { kind: init.kind, ..self })
                },
                Err(error) => checked_pusher(self.kind, Err::<PusherKind, ClientError>(error)),
            },
    {
        match self.kind.checked() {
            Ok(kind) => Ok(
                PusherInit {
                    identifiers: self.identifiers,
                    kind,
                    app_display_name: self.app_display_name,
                    device_display_name: self.device_display_name,
                    profile_tag: self.profile_tag,
                    lang: self.lang,
                },
            ),
            Err(error) => Err(error),
        }
    }
}

/// A pusher is registered as it was given, but for the payload, which is checked to be JSON: a
/// pusher is refused if and only if its payload is not.
pub proof fn pushers_are_registered_as_given(init: PusherInit, r: Result<PusherInit, ClientError>)
    requires
        call_ensures(PusherInit::checked, (init,), r),
    ensures
        r is Err <==> (init.kind matches PusherKind::Http { data } && data.default_payload is Some
            && json_reading(data.default_payload->0@) is Err),
        r is Ok ==> {
            let made = r->Ok_0;
            &&& made.identifiers == init.identifiers
            &&& made.app_display_name == init.app_display_name
            &&& made.device_display_name == init.device_display_name
            &&& made.profile_tag == init.profile_tag && made.lang == init.lang
            &&& made.kind is Email <==> init.kind is Email
            &&& init.kind is Http ==> {
                &&& made.kind->data.url == init.kind->data.url
                &&& made.kind->data.format == init.kind->data.format
                &&& made.kind->data.default_payload is Some
                    <==> init.kind->data.default_payload is Some
                &&& init.kind->data.default_payload is Some ==> Ok::<
                    Seq<char>,
                    (Seq<char>, Seq<char>),
                >(made.kind->data.default_payload->0@) == json_reading(
                    init.kind->data.default_payload->0@,
                )
            }
        },
{
}

} // verus!
