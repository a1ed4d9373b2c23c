//! Changes of account data, and who is told of them.

use vstd::prelude::*;

use crate::error::{texts_error, ClientError};
use crate::ids::{check_room_id, room_id_refusal};
use crate::text::same;

verus! {

/// A type of account data.
pub enum AccountDataEventType {
    Direct,
    IdentityServer,
    IgnoredUserList,
    PushRules,
    SecretStorageDefaultKey,
    /// The secret storage key with this ID.
    SecretStorageKey { key_id: String },
}

/// A type of account data of a room.
#[derive(Clone, Copy, Debug, PartialEq, Eq, Structural)]
pub enum RoomAccountDataEventType {
    FullyRead,
    MarkedUnread,
    Tag,
    UnstableMarkedUnread,
}

/// Told of changes of account data. `E` is an event.
pub trait AccountDataListener<E> {
    fn on_change(&self, event: E);
}

/// Told of changes of account data of a room. `E` is an event.
pub trait RoomAccountDataListener<E> {
    fn on_change(&self, event: E, room_id: String);
}

/// A change of account data.
pub struct ObservedAccountData<E> {
    /// The ID of the secret storage key, if the change is of one.
    pub key_id: Option<String>,
    /// The event, if it can be told.
    pub event: Option<E>,
}

impl AccountDataEventType {
    /// The event type that is observed. All secret storage keys share the beginning
    /// of theirs.
    pub open spec fn observed(self) -> Seq<char> {
        match self {
            AccountDataEventType::Direct => "m.direct"@,
            AccountDataEventType::IdentityServer => "m.identity_server"@,
            AccountDataEventType::IgnoredUserList => "m.ignored_user_list"@,
            AccountDataEventType::PushRules => "m.push_rules"@,
            AccountDataEventType::SecretStorageDefaultKey => "m.secret_storage.default_key"@,
            AccountDataEventType::SecretStorageKey { .. } => "m.secret_storage.key."@,
        }
    }

    /// The event type that is observed.
    pub fn observed_type(&self) -> (r: &'static str)
        ensures
            r@ == self.observed(),
    {
        match self {
            AccountDataEventType::Direct => "m.direct",
            AccountDataEventType::IdentityServer => "m.identity_server",
            AccountDataEventType::IgnoredUserList => "m.ignored_user_list",
            AccountDataEventType::PushRules => "m.push_rules",
            AccountDataEventType::SecretStorageDefaultKey => "m.secret_storage.default_key",
            AccountDataEventType::SecretStorageKey { .. } => "m.secret_storage.key.",
        }
    }

    /// Whether a change of what is observed is one of this type: of a secret storage
    /// key, only a change of the one with the right ID is.
    pub open spec fn concerns(self, key_id: Option<String>) -> bool {
        self matches AccountDataEventType::SecretStorageKey { key_id: wanted } ==> key_id is Some
            && key_id->0@ == wanted@
    }

    /// What a listener is told of a change: the event, if it is of this type and
    /// can be told.
    pub fn told<E>(&self, observed: ObservedAccountData<E>) -> (r: Option<E>)
        ensures
            r == (if self.concerns(observed.key_id) {
                observed.event
            } else {
                None
            }),
    {
        match self {
            AccountDataEventType::SecretStorageKey { key_id: wanted } => match observed.key_id {
                Some(key_id) => if same(key_id.as_str(), wanted.as_str()) {
                    observed.event
                } else {
                    None
                },
                None => None,
            },
            _ => observed.event,
        }
    }
}

impl RoomAccountDataEventType {
    /// The event type that is observed.
    pub fn observed_type(&self) -> (r: &'static str)
        ensures
            r@ == match *self {
                RoomAccountDataEventType::FullyRead => "m.fully_read"@,
                RoomAccountDataEventType::MarkedUnread => "m.marked_unread"@,
                RoomAccountDataEventType::Tag => "m.tag"@,
                RoomAccountDataEventType::UnstableMarkedUnread => "com.famedly.marked_unread"@,
            },
    {
        match self {
            RoomAccountDataEventType::FullyRead => "m.fully_read",
            RoomAccountDataEventType::MarkedUnread => "m.marked_unread",
            RoomAccountDataEventType::Tag => "m.tag",
            RoomAccountDataEventType::UnstableMarkedUnread => "com.famedly.marked_unread",
        }
    }
}

/// What is observed in a room.
pub struct RoomObservation {
    pub room_id: String,
    pub event_type: RoomAccountDataEventType,
}

impl RoomObservation {
    /// What is observed in a room, which has to be named by its ID.
    pub fn new(room_id: String, event_type: RoomAccountDataEventType) -> (r: Result<
        RoomObservation,
        ClientError,
    >)
        ensures
            match room_id_refusal(room_id@) {
                None => r == Ok::<RoomObservation, ClientError>(
                    RoomObservation { room_id, event_type },
                ),
                Some(texts) => r matches Err(error) && texts_error(texts, error),
            },
    {
        match check_room_id(room_id.as_str()) {
            Ok(()) => Ok(RoomObservation { room_id, event_type }),
            Err(error) => Err(error),
        }
    }

    /// What a listener is told of a change: the event, if it can be told, and the
    /// room.
    pub fn told<E>(&self, event: Option<E>) -> (r: Option<(E, String)>)
        ensures
            r == (match event {
                Some(event) => Some((event, self.room_id)),
                None => None,
            }),
    {
        match event {
            Some(event) => Some((event, self.room_id.clone())),
            None => None,
        }
    }
}

/// A listener is told of no secret storage key but the one that it asked for.
pub proof fn only_the_wanted_key_is_told(wanted: String, key_id: Option<String>)
    ensures
        (AccountDataEventType::SecretStorageKey { key_id: wanted }).concerns(key_id) <==> key_id
            is Some && key_id->0@ == wanted@,
{
}

/// The types of account data are observed under names that tell them apart, and a listener
/// for a key of the secret storage is told of that key alone; the others are told of
/// whatever is read.
pub proof fn account_data_is_told_to_who_wants_it<E>(
    wanted: AccountDataEventType,
    key_id: Option<String>,
    event: Option<E>,
    told: Option<E>,
)
    requires
        call_ensures(
            AccountDataEventType::told::<E>,
            (&wanted, ObservedAccountData { key_id, event }),
            told,
        ),
    ensures
        told is Some ==> told == event,
        !(wanted is SecretStorageKey) ==> told == event,
        wanted is SecretStorageKey && key_id is Some && key_id->0@ == wanted->key_id@ ==> told
            == event,
        wanted is SecretStorageKey && (key_id is None || key_id->0@ != wanted->key_id@)
            ==> told is None,
{
}

/// Account data of a room is told with that room, as it was read, and observed by the name
/// of its own type.
pub proof fn room_account_data_is_told_with_its_room<E>(
    room_id: String,
    event_type: RoomAccountDataEventType,
    observation: Result<RoomObservation, ClientError>,
    event: Option<E>,
    told: Option<(E, String)>,
    name: &'static str,
)
    requires
        call_ensures(RoomObservation::new, (room_id, event_type), observation),
        observation is Ok ==> call_ensures(
            RoomObservation::told::<E>,
            (&observation->Ok_0, event),
            told,
        ),
        call_ensures(RoomAccountDataEventType::observed_type, (&event_type,), name),
    ensures
        observation is Ok <==> room_id_refusal(room_id@) is None,
        observation is Ok ==> observation->Ok_0.event_type == event_type,
        observation is Ok ==> (told is Some <==> event is Some),
        observation is Ok && event is Some ==> told == Some((event->0, room_id)),
        event_type is FullyRead <==> name@ == "m.fully_read"@,
        event_type is MarkedUnread <==> name@ == "m.marked_unread"@,
        event_type is Tag <==> name@ == "m.tag"@,
        event_type is UnstableMarkedUnread <==> name@ == "com.famedly.marked_unread"@,
{
    reveal_strlit("m.fully_read");
    reveal_strlit("m.marked_unread");
    reveal_strlit("m.tag");
    reveal_strlit("com.famedly.marked_unread");
    assert("m.fully_read"@.len() == 12 && "m.marked_unread"@.len() == 15 && "m.tag"@.len() == 5);
    assert("com.famedly.marked_unread"@.len() == 25);
}

/// Each type of account data is observed by its own name.
pub proof fn account_data_is_observed_by_its_name(wanted: AccountDataEventType, name: &'static str)
    requires
        call_ensures(AccountDataEventType::observed_type, (&wanted,), name),
    ensures
        wanted is Direct ==> name@ == "m.direct"@,
        wanted is IdentityServer ==> name@ == "m.identity_server"@,
        wanted is IgnoredUserList ==> name@ == "m.ignored_user_list"@,
        wanted is PushRules ==> name@ == "m.push_rules"@,
        wanted is SecretStorageDefaultKey ==> name@ == "m.secret_storage.default_key"@,
        wanted is SecretStorageKey ==> name@ == "m.secret_storage.key."@,
{
}

} // verus!
