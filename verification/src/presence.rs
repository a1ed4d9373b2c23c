//! Whether users are there.

use vstd::prelude::*;

use crate::duration::Duration;
use crate::text::same;

verus! {

/// Whether a user is there.
pub enum PresenceState {
    Online,
    Offline,
    /// The user is there, but not active.
    Unavailable,
    /// Any other value.
    Custom { value: String },
}

impl PresenceState {
    /// The name that the state goes by.
    pub open spec fn name(self) -> Seq<char> {
        match self {
            PresenceState::Online => "online"@,
            PresenceState::Offline => "offline"@,
            PresenceState::Unavailable => "unavailable"@,
            PresenceState::Custom { value } => value@,
        }
    }

    /// Whether a name is one of those with a meaning of their own.
    pub open spec fn is_standard(name: Seq<char>) -> bool {
        name == "online"@ || name == "offline"@ || name == "unavailable"@
    }

    /// The state that goes by a name.
    pub fn from(name: &str) -> (r: PresenceState)
        ensures
            r.name() == name@,
            r is Custom <==> !Self::is_standard(name@),
    {
        if same(name, "online") {
            PresenceState::Online
        } else if same(name, "offline") {
            PresenceState::Offline
        } else if same(name, "unavailable") {
            PresenceState::Unavailable
        } else {
            PresenceState::Custom { value: name.to_owned() }
        }
    }

    /// The name that the state goes by.
    pub fn as_str(&self) -> (r: &str)
        ensures
            r@ == self.name(),
    {
        match self {
            PresenceState::Online => "online",
            PresenceState::Offline => "offline",
            PresenceState::Unavailable => "unavailable",
            PresenceState::Custom { value } => value.as_str(),
        }
    }
}

/// What is known of whether a user is there.
pub struct UserPresence {
    pub user_id: String,
    pub presence: PresenceState,
    pub status_msg: Option<String>,
    pub last_active_ago: Option<Duration>,
    pub currently_active: Option<bool>,
}

/// An event that says whether a user is there.
pub struct PresenceEvent {
    pub sender: String,
    pub presence: String,
    pub status_msg: Option<String>,
    /// In milliseconds.
    pub last_active_ago: Option<u64>,
    pub currently_active: Option<bool>,
}

/// What a homeserver answers when it is asked whether a user is there.
pub struct PresenceResponse {
    pub presence: String,
    pub status_msg: Option<String>,
    pub last_active_ago: Option<Duration>,
    pub currently_active: Option<bool>,
}

impl UserPresence {
    /// What a homeserver says of the user that it was asked for; nothing is said of
    /// what it leaves out.
    pub fn fetched(user_id: String, response: PresenceResponse) -> (r: UserPresence)
        ensures
            r.user_id == user_id,
            r.presence.name() == response.presence@,
            r.presence is Custom <==> !PresenceState::is_standard(response.presence@),
            r.status_msg == response.status_msg,
            r.last_active_ago == response.last_active_ago,
            r.currently_active == response.currently_active,
    {
        UserPresence {
            user_id,
            presence: PresenceState::from(response.presence.as_str()),
            status_msg: response.status_msg,
            last_active_ago: response.last_active_ago,
            currently_active: response.currently_active,
        }
    }

    /// What an event says of a user; nothing is said of what it leaves out.
    pub fn from(event: PresenceEvent) -> (r: UserPresence)
        ensures
            r.user_id == event.sender,
            r.presence.name() == event.presence@,
            r.presence is Custom <==> !PresenceState::is_standard(event.presence@),
            r.status_msg == event.status_msg,
            r.last_active_ago is Some <==> event.last_active_ago is Some,
            r.last_active_ago matches Some(ago) ==> ago.is_valid() && ago.millis()
                == event.last_active_ago->0 && ago.nanos % 1_000_000 == 0,
            r.currently_active == event.currently_active,
    {
        let last_active_ago: Option<Duration> = match event.last_active_ago {
            Some(millis) => Some(Duration::from_millis(millis)),
            None => None,
        };
        UserPresence {
            user_id: event.sender,
            presence: PresenceState::from(event.presence.as_str()),
            status_msg: event.status_msg,
            last_active_ago,
            currently_active: event.currently_active,
        }
    }
}

/// A state that is not a custom one is found again by its name.
pub proof fn presence_round_trip(a: PresenceState, b: PresenceState)
    requires
        !(a is Custom),
        b.name() == a.name(),
        b is Custom <==> !PresenceState::is_standard(b.name()),
    ensures
        b == a,
{
    reveal_strlit("online");
    reveal_strlit("offline");
    reveal_strlit("unavailable");
    assert("online"@.len() == 6 && "offline"@.len() == 7 && "unavailable"@.len() == 11);
}

/// Told whether users are there.
pub trait PresenceListener {
    fn on_update(&self, presence: UserPresence);
}

/// What is told of a user is what the homeserver said of them, each thing by its own name, and
/// a presence with a meaning of its own is told as such.
pub proof fn presence_is_told(
    event: PresenceEvent,
    told: UserPresence,
    user_id: String,
    response: PresenceResponse,
    fetched: UserPresence,
)
    requires
        call_ensures(UserPresence::from, (event,), told),
        call_ensures(UserPresence::fetched, (user_id, response), fetched),
    ensures
        told.user_id == event.sender && told.status_msg == event.status_msg,
        told.currently_active == event.currently_active,
        told.last_active_ago is Some <==> event.last_active_ago is Some,
        told.last_active_ago is Some ==> told.last_active_ago->0.secs
            == event.last_active_ago->0 / 1000 && told.last_active_ago->0.nanos
            == event.last_active_ago->0 % 1000 * 1_000_000,
        told.presence is Online <==> event.presence@ == "online"@,
        told.presence is Offline <==> event.presence@ == "offline"@,
        told.presence is Unavailable <==> event.presence@ == "unavailable"@,
        told.presence is Custom ==> told.presence->value@ == event.presence@,
        fetched.user_id == user_id && fetched.status_msg == response.status_msg,
        fetched.currently_active == response.currently_active,
        fetched.last_active_ago == response.last_active_ago,
        fetched.presence is Online <==> response.presence@ == "online"@,
        fetched.presence is Offline <==> response.presence@ == "offline"@,
        fetched.presence is Unavailable <==> response.presence@ == "unavailable"@,
        fetched.presence is Custom ==> fetched.presence->value@ == response.presence@,
{
    reveal_strlit("online");
    reveal_strlit("offline");
    reveal_strlit("unavailable");
    assert("online"@.len() == 6 && "offline"@.len() == 7 && "unavailable"@.len() == 11);
}

/// A presence is found again by its name.
pub proof fn presences_are_found_by_their_names(a: PresenceState, name: &str, b: PresenceState)
    requires
        call_ensures(PresenceState::as_str, (&a,), name),
        call_ensures(PresenceState::from, (name,), b),
    ensures
        a is Online ==> b is Online && name@ == "online"@,
        a is Offline ==> b is Offline && name@ == "offline"@,
        a is Unavailable ==> b is Unavailable && name@ == "unavailable"@,
        b is Custom ==> b->value@ == name@,
{
    reveal_strlit("online");
    reveal_strlit("offline");
    reveal_strlit("unavailable");
    assert("online"@.len() == 6 && "offline"@.len() == 7 && "unavailable"@.len() == 11);
}

} // verus!
