//! Who can do what in a room.

use vstd::prelude::*;

use crate::error::{texts_error, ClientError};
use crate::event::{MessageLikeEventType, StateEventType};
use crate::ids::{check_user_id, user_id_refusal};
use crate::text::same;

verus! {

/// The power levels of a room.
pub struct RoomPowerLevels {
    /// The level that it takes to ban a user.
    pub ban: i64,
    /// The level that it takes to invite a user.
    pub invite: i64,
    /// The level that it takes to kick a user.
    pub kick: i64,
    /// The level that it takes to redact an event of someone else.
    pub redact: i64,
    /// The level that it takes to send a message, unless there is one for its type.
    pub events_default: i64,
    /// The level that it takes to send a state event, unless there is one for its
    /// type.
    pub state_default: i64,
    /// The level of a user, unless they have one of their own.
    pub users_default: i64,
    /// The level that it takes to notify the whole room.
    pub room_notification: i64,
    /// The level that it takes to send events of each of these types.
    pub events: Vec<(String, i64)>,
    /// The level of each of these users.
    pub users: Vec<(String, i64)>,
    /// The creators of the room, if they can do anything.
    pub privileged_creators: Option<Vec<String>>,
}

/// The level of a name in a list, if it is in there.
pub open spec fn level_in(levels: Seq<(String, i64)>, name: Seq<char>) -> Option<i64>
    decreases levels.len(),
{
    if levels.len() == 0 {
        None
    } else if levels[0].0@ == name {
        Some(levels[0].1)
    } else {
        level_in(levels.skip(1), name)
    }
}

/// The level of a name in a list, or else another one.
pub open spec fn level_or(levels: Seq<(String, i64)>, name: Seq<char>, default: i64) -> i64 {
    match level_in(levels, name) {
        Some(level) => level,
        None => default,
    }
}

/// The level of a name in a list, or else another one.
fn find_level(levels: &Vec<(String, i64)>, name: &str, default: i64) -> (r: i64)
    ensures
        r == level_or(levels@, name@, default),
{
    let mut i: usize = 0;
    proof {
        assert(levels@.skip(0) =~= levels@);
    }
    while i < levels.len()
        invariant
            i <= levels.len(),
            level_in(levels@, name@) == level_in(levels@.skip(i as int), name@),
        decreases levels.len() - i,
    {
        proof {
            assert(levels@.skip(i as int).skip(1) =~= levels@.skip(i as int + 1));
        }
        if same(levels[i].0.as_str(), name) {
            return levels[i].1;
        }
        i = i + 1;
    }
    default
}

/// How much power a user has.
#[derive(Clone, Copy, Debug, PartialEq, Eq, Structural)]
pub enum UserPowerLevel {
    /// More than any level.
    Infinite,
    /// This level.
    Level(i64),
}

impl UserPowerLevel {
    /// Whether the power is enough for what takes this level.
    pub open spec fn reaches(self, required: i64) -> bool {
        match self {
            UserPowerLevel::Infinite => true,
            UserPowerLevel::Level(level) => level >= required,
        }
    }

    /// Whether there is as much power as another user has.
    pub open spec fn at_least(self, other: UserPowerLevel) -> bool {
        match (self, other) {
            (UserPowerLevel::Infinite, _) => true,
            (UserPowerLevel::Level(_), UserPowerLevel::Infinite) => false,
            (UserPowerLevel::Level(a), UserPowerLevel::Level(b)) => a >= b,
        }
    }
}

/// What a user may want to do in a room.
pub enum PowerLevelAction {
    Ban,
    Invite,
    Kick,
    RedactOwn,
    RedactOther,
    /// Send a message of this type.
    SendMessage { event_type: String },
    /// Send a state event of this type.
    SendState { event_type: String },
    TriggerRoomNotification,
}

impl RoomPowerLevels {
    /// Whether a user is a creator who can do anything.
    pub open spec fn is_privileged(self, user_id: Seq<char>) -> bool {
        self.privileged_creators matches Some(creators) && exists|i: int|
            0 <= i < creators@.len() && (#[trigger] creators@[i])@ == user_id
    }

    /// How much power a user has.
    pub open spec fn power_of(self, user_id: Seq<char>) -> UserPowerLevel {
        if self.is_privileged(user_id) {
            UserPowerLevel::Infinite
        } else {
            UserPowerLevel::Level(level_or(self.users@, user_id, self.users_default))
        }
    }

    /// The level that it takes to send a message of this type.
    pub open spec fn message_level(self, event_type: Seq<char>) -> i64 {
        level_or(self.events@, event_type, self.events_default)
    }

    /// The level that it takes to send a state event of this type.
    pub open spec fn state_level(self, event_type: Seq<char>) -> i64 {
        level_or(self.events@, event_type, self.state_default)
    }

    /// Whether a user can do something.
    pub open spec fn allows(self, user_id: Seq<char>, action: PowerLevelAction) -> bool {
        let power = self.power_of(user_id);
        match action {
            PowerLevelAction::Ban => power.reaches(self.ban),
            PowerLevelAction::Invite => power.reaches(self.invite),
            PowerLevelAction::Kick => power.reaches(self.kick),
            PowerLevelAction::RedactOwn => power.reaches(self.message_level("m.room.redaction"@)),
            PowerLevelAction::RedactOther => power.reaches(
                self.message_level("m.room.redaction"@),
            ) && power.reaches(self.redact),
            PowerLevelAction::SendMessage { event_type } => power.reaches(
                self.message_level(event_type@),
            ),
            PowerLevelAction::SendState { event_type } => power.reaches(
                self.state_level(event_type@),
            ),
            PowerLevelAction::TriggerRoomNotification => power.reaches(self.room_notification),
        }
    }

    /// How much power a user has.
    pub fn for_user(&self, user_id: &str) -> (r: UserPowerLevel)
        ensures
            r == self.power_of(user_id@),
    {
        if let Some(creators) = &self.privileged_creators {
            let mut i: usize = 0;
            while i < creators.len()
                invariant
                    i <= creators.len(),
                    self.privileged_creators == Some(*creators),
                    forall|j: int| 0 <= j < i ==> (#[trigger] creators@[j])@ != user_id@,
                decreases creators.len() - i,
            {
                if same(creators[i].as_str(), user_id) {
                    proof {
                        let listed = self.privileged_creators->0@;
                        assert(listed[i as int]@ == user_id@);
                        assert(self.is_privileged(user_id@));
                    }
                    return UserPowerLevel::Infinite;
                }
                i = i + 1;
            }
        }
        UserPowerLevel::Level(find_level(&self.users, user_id, self.users_default))
    }

    /// The level that it takes to send a message of this type.
    pub fn for_message(&self, event_type: &str) -> (r: i64)
        ensures
            r == self.message_level(event_type@),
    {
        find_level(&self.events, event_type, self.events_default)
    }

    /// The level that it takes to send a state event of this type.
    pub fn for_state(&self, event_type: &str) -> (r: i64)
        ensures
            r == self.state_level(event_type@),
    {
        find_level(&self.events, event_type, self.state_default)
    }

    /// Whether a user has the power for what takes this level.
    fn reaches(&self, user_id: &str, required: i64) -> (r: bool)
        ensures
            r == self.power_of(user_id@).reaches(required),
    {
        match self.for_user(user_id) {
            UserPowerLevel::Infinite => true,
            UserPowerLevel::Level(level) => level >= required,
        }
    }

    /// What is said of whether a user can do something: they have to be named by
    /// their user ID.
    pub open spec fn answers(
        self,
        user_id: Seq<char>,
        action: PowerLevelAction,
        r: Result<bool, ClientError>,
    ) -> bool {
        match user_id_refusal(user_id) {
            None => r == Ok::<bool, ClientError>(self.allows(user_id, action)),
            Some(texts) => r matches Err(error) && texts_error(texts, error),
        }
    }

    /// Whether a user can ban others.
    pub fn can_user_ban(&self, user_id: String) -> (r: Result<bool, ClientError>)
        ensures
            self.answers(user_id@, PowerLevelAction::Ban, r),
    {
        match check_user_id(user_id.as_str()) {
            Ok(()) => Ok(self.reaches(user_id.as_str(), self.ban)),
            Err(error) => Err(error),
        }
    }

    /// Whether a user can redact their own messages.
    pub fn can_user_redact_own(&self, user_id: String) -> (r: Result<bool, ClientError>)
        ensures
            self.answers(user_id@, PowerLevelAction::RedactOwn, r),
    {
        match check_user_id(user_id.as_str()) {
            Ok(()) => Ok(self.reaches(user_id.as_str(), self.for_message("m.room.redaction"))),
            Err(error) => Err(error),
        }
    }

    /// Whether a user can redact messages of others.
    pub fn can_user_redact_other(&self, user_id: String) -> (r: Result<bool, ClientError>)
        ensures
            self.answers(user_id@, PowerLevelAction::RedactOther, r),
    {
        match check_user_id(user_id.as_str()) {
            Ok(()) => Ok(
                self.reaches(user_id.as_str(), self.for_message("m.room.redaction"))
                    && self.reaches(user_id.as_str(), self.redact),
            ),
            Err(error) => Err(error),
        }
    }

    /// Whether a user can invite others.
    pub fn can_user_invite(&self, user_id: String) -> (r: Result<bool, ClientError>)
        ensures
            self.answers(user_id@, PowerLevelAction::Invite, r),
    {
        match check_user_id(user_id.as_str()) {
            Ok(()) => Ok(self.reaches(user_id.as_str(), self.invite)),
            Err(error) => Err(error),
        }
    }

    /// Whether a user can kick others.
    pub fn can_user_kick(&self, user_id: String) -> (r: Result<bool, ClientError>)
        ensures
            self.answers(user_id@, PowerLevelAction::Kick, r),
    {
        match check_user_id(user_id.as_str()) {
            Ok(()) => Ok(self.reaches(user_id.as_str(), self.kick)),
            Err(error) => Err(error),
        }
    }

    /// Whether a user can send a state event.
    pub fn can_user_send_state(&self, user_id: String, state_event: StateEventType) -> (r: Result<
        bool,
        ClientError,
    >)
        ensures
            match user_id_refusal(user_id@) {
                None => r == Ok::<bool, ClientError>(
                    self.power_of(user_id@).reaches(self.state_level(state_event.event_type())),
                ),
                Some(texts) => r matches Err(error) && texts_error(texts, error),
            },
    {
        match check_user_id(user_id.as_str()) {
            Ok(()) => {
                let event_type: String = state_event.into_event_type();
                Ok(self.reaches(user_id.as_str(), self.for_state(event_type.as_str())))
            },
            Err(error) => Err(error),
        }
    }

    /// Whether a user can send a message.
    pub fn can_user_send_message(&self, user_id: String, message: MessageLikeEventType) -> (r:
        Result<bool, ClientError>)
        ensures
            match user_id_refusal(user_id@) {
                None => r == Ok::<bool, ClientError>(
                    self.power_of(user_id@).reaches(self.message_level(message.event_type())),
                ),
                Some(texts) => r matches Err(error) && texts_error(texts, error),
            },
    {
        match check_user_id(user_id.as_str()) {
            Ok(()) => {
                let event_type: String = message.into_event_type();
                Ok(self.reaches(user_id.as_str(), self.for_message(event_type.as_str())))
            },
            Err(error) => Err(error),
        }
    }

    /// Whether a user can pin and unpin events.
    pub fn can_user_pin_unpin(&self, user_id: String) -> (r: Result<bool, ClientError>)
        ensures
            match user_id_refusal(user_id@) {
                None => r == Ok::<bool, ClientError>(
                    self.power_of(user_id@).reaches(self.state_level("m.room.pinned_events"@)),
                ),
                Some(texts) => r matches Err(error) && texts_error(texts, error),
            },
    {
        match check_user_id(user_id.as_str()) {
            Ok(()) => Ok(self.reaches(user_id.as_str(), self.for_state("m.room.pinned_events"))),
            Err(error) => Err(error),
        }
    }

    /// Whether a user can notify the whole room.
    pub fn can_user_trigger_room_notification(&self, user_id: String) -> (r: Result<
        bool,
        ClientError,
    >)
        ensures
            self.answers(user_id@, PowerLevelAction::TriggerRoomNotification, r),
    {
        match check_user_id(user_id.as_str()) {
            Ok(()) => Ok(self.reaches(user_id.as_str(), self.room_notification)),
            Err(error) => Err(error),
        }
    }

    /// The levels that are shown of a room.
    pub fn values(&self) -> (r: RoomPowerLevelsValues)
        ensures
            r == (RoomPowerLevelsValues {
                ban: self.ban,
                invite: self.invite,
                kick: self.kick,
                redact: self.redact,
                events_default: self.events_default,
                state_default: self.state_default,
                users_default: self.users_default,
                room_name: self.state_level("m.room.name"@),
                room_avatar: self.state_level("m.room.avatar"@),
                room_topic: self.state_level("m.room.topic"@),
            }),
    {
        RoomPowerLevelsValues {
            ban: self.ban,
            invite: self.invite,
            kick: self.kick,
            redact: self.redact,
            events_default: self.events_default,
            state_default: self.state_default,
            users_default: self.users_default,
            room_name: self.for_state("m.room.name"),
            room_avatar: self.for_state("m.room.avatar"),
            room_topic: self.for_state("m.room.topic"),
        }
    }
}

/// The levels that are shown of a room.
#[derive(Clone, Copy, Debug, PartialEq, Eq, Structural)]
pub struct RoomPowerLevelsValues {
    /// The level that it takes to ban a user.
    pub ban: i64,
    /// The level that it takes to invite a user.
    pub invite: i64,
    /// The level that it takes to kick a user.
    pub kick: i64,
    /// The level that it takes to redact an event.
    pub redact: i64,
    /// The level that it takes to send a message, unless there is one for its type.
    pub events_default: i64,
    /// The level that it takes to send a state event, unless there is one for its
    /// type.
    pub state_default: i64,
    /// The level of a user, unless they have one of their own.
    pub users_default: i64,
    /// The level that it takes to change the name of the room.
    pub room_name: i64,
    /// The level that it takes to change the avatar of the room.
    pub room_avatar: i64,
    /// The level that it takes to change the topic of the room.
    pub room_topic: i64,
}

/// Who has as much power as another user can do all that the other can.
pub proof fn more_power_allows_more(
    levels: RoomPowerLevels,
    user: Seq<char>,
    other: Seq<char>,
    action: PowerLevelAction,
)
    requires
        levels.power_of(user).at_least(levels.power_of(other)),
        levels.allows(other, action),
    ensures
        levels.allows(user, action),
{
}

/// A privileged creator can do anything.
pub proof fn privileged_creators_can_do_anything(
    levels: RoomPowerLevels,
    user: Seq<char>,
    action: PowerLevelAction,
)
    requires
        levels.is_privileged(user),
    ensures
        levels.allows(user, action),
{
}

/// Who can redact messages of others can redact their own.
pub proof fn redacting_others_takes_redacting(levels: RoomPowerLevels, user: Seq<char>)
    requires
        levels.allows(user, PowerLevelAction::RedactOther),
    ensures
        levels.allows(user, PowerLevelAction::RedactOwn),
{
}

/// The level of a name is that of its first entry, or else the usual one.
pub proof fn levels_are_looked_up(
    levels: Seq<(String, i64)>,
    name: Seq<char>,
    default: i64,
    i: int,
)
    requires
        forall|j: int| 0 <= j < i ==> (#[trigger] levels[j]).0@ != name,
        0 <= i <= levels.len(),
    ensures
        i < levels.len() && levels[i].0@ == name ==> level_or(levels, name, default) == levels[i].1,
        i == levels.len() ==> level_or(levels, name, default) == default,
    decreases i,
{
    if i > 0 {
        let rest = levels.skip(1);
        assert(levels[0].0@ != name);
        assert forall|j: int| 0 <= j < i - 1 implies (#[trigger] rest[j]).0@ != name by {
            assert(rest[j] == levels[j + 1]);
        }
        levels_are_looked_up(rest, name, default, i - 1);
    }
}

/// Whoever is not privileged can do a thing if and only if their level is as high as the level
/// of that thing; each thing has its own level, and redacting others' messages takes two.
pub proof fn each_action_takes_its_own_level(
    levels: RoomPowerLevels,
    user_id: String,
    state: StateEventType,
    message: MessageLikeEventType,
    r: (
        Result<bool, ClientError>,
        Result<bool, ClientError>,
        Result<bool, ClientError>,
        Result<bool, ClientError>,
        Result<bool, ClientError>,
        Result<bool, ClientError>,
    ),
    sends: (Result<bool, ClientError>, Result<bool, ClientError>, Result<bool, ClientError>),
)
    requires
        user_id_refusal(user_id@) is None,
        levels.privileged_creators is None,
        call_ensures(RoomPowerLevels::can_user_ban, (&levels, user_id), r.0),
        call_ensures(RoomPowerLevels::can_user_invite, (&levels, user_id), r.1),
        call_ensures(RoomPowerLevels::can_user_kick, (&levels, user_id), r.2),
        call_ensures(
            RoomPowerLevels::can_user_trigger_room_notification,
            (&levels, user_id),
            r.3,
        ),
        call_ensures(RoomPowerLevels::can_user_redact_own, (&levels, user_id), r.4),
        call_ensures(RoomPowerLevels::can_user_redact_other, (&levels, user_id), r.5),
        call_ensures(RoomPowerLevels::can_user_send_state, (&levels, user_id, state), sends.0),
        call_ensures(RoomPowerLevels::can_user_send_message, (&levels, user_id, message), sends.1),
        call_ensures(RoomPowerLevels::can_user_pin_unpin, (&levels, user_id), sends.2),
    ensures
        ({
            let own = level_or(levels.users@, user_id@, levels.users_default);
            let redact = level_or(levels.events@, "m.room.redaction"@, levels.events_default);
            &&& r.0 == Ok::<bool, ClientError>(own >= levels.ban)
            &&& r.1 == Ok::<bool, ClientError>(own >= levels.invite)
            &&& r.2 == Ok::<bool, ClientError>(own >= levels.kick)
            &&& r.3 == Ok::<bool, ClientError>(own >= levels.room_notification)
            &&& r.4 == Ok::<bool, ClientError>(own >= redact)
            &&& r.5 == Ok::<bool, ClientError>(own >= redact && own >= levels.redact)
            &&& sends.0 == Ok::<bool, ClientError>(
                own >= level_or(levels.events@, state.event_type(), levels.state_default),
            )
            &&& sends.1 == Ok::<bool, ClientError>(
                own >= level_or(levels.events@, message.event_type(), levels.events_default),
            )
            &&& sends.2 == Ok::<bool, ClientError>(
                own >= level_or(levels.events@, "m.room.pinned_events"@, levels.state_default),
            )
        }),
{
}

/// The levels are told by their own names.
pub proof fn levels_are_told(
    levels: RoomPowerLevels,
    user_id: &str,
    values: RoomPowerLevelsValues,
    power: UserPowerLevel,
)
    requires
        call_ensures(RoomPowerLevels::values, (&levels,), values),
        call_ensures(RoomPowerLevels::for_user, (&levels, user_id), power),
    ensures
        values.ban == levels.ban && values.invite == levels.invite && values.kick == levels.kick,
        values.redact == levels.redact && values.events_default == levels.events_default,
        values.state_default == levels.state_default && values.users_default
            == levels.users_default,
        values.room_name == level_or(levels.events@, "m.room.name"@, levels.state_default),
        values.room_avatar == level_or(levels.events@, "m.room.avatar"@, levels.state_default),
        values.room_topic == level_or(levels.events@, "m.room.topic"@, levels.state_default),
        power is Infinite <==> (levels.privileged_creators is Some && exists|i: int|
            0 <= i < levels.privileged_creators->0@.len() && (
            #[trigger] levels.privileged_creators->0@[i])@ == user_id@),
        power matches UserPowerLevel::Level(level) ==> level == level_or(
            levels.users@,
            user_id@,
            levels.users_default,
        ),
{
}

/// Messages and state events take the level of their type, or the usual one of their own kind.
pub proof fn events_take_the_level_of_their_type(
    levels: RoomPowerLevels,
    name: &str,
    message: i64,
    state: i64,
)
    requires
        call_ensures(RoomPowerLevels::for_message, (&levels, name), message),
        call_ensures(RoomPowerLevels::for_state, (&levels, name), state),
    ensures
        message == level_or(levels.events@, name@, levels.events_default),
        state == level_or(levels.events@, name@, levels.state_default),
{
}

/// Privileged creators can do anything, and nothing is told of somebody who is not named by a user
/// ID.
pub proof fn privileged_creators_are_never_refused(
    levels: RoomPowerLevels,
    user_id: String,
    i: int,
    state: StateEventType,
    message: MessageLikeEventType,
    r: (
        Result<bool, ClientError>,
        Result<bool, ClientError>,
        Result<bool, ClientError>,
        Result<bool, ClientError>,
        Result<bool, ClientError>,
        Result<bool, ClientError>,
    ),
    sends: (Result<bool, ClientError>, Result<bool, ClientError>, Result<bool, ClientError>),
)
    requires
        levels.privileged_creators is Some,
        0 <= i < levels.privileged_creators->0@.len(),
        levels.privileged_creators->0@[i]@ == user_id@,
        call_ensures(RoomPowerLevels::can_user_ban, (&levels, user_id), r.0),
        call_ensures(RoomPowerLevels::can_user_invite, (&levels, user_id), r.1),
        call_ensures(RoomPowerLevels::can_user_kick, (&levels, user_id), r.2),
        call_ensures(
            RoomPowerLevels::can_user_trigger_room_notification,
            (&levels, user_id),
            r.3,
        ),
        call_ensures(RoomPowerLevels::can_user_redact_own, (&levels, user_id), r.4),
        call_ensures(RoomPowerLevels::can_user_redact_other, (&levels, user_id), r.5),
        call_ensures(RoomPowerLevels::can_user_send_state, (&levels, user_id, state), sends.0),
        call_ensures(RoomPowerLevels::can_user_send_message, (&levels, user_id, message), sends.1),
        call_ensures(RoomPowerLevels::can_user_pin_unpin, (&levels, user_id), sends.2),
    ensures
        user_id_refusal(user_id@) is None ==> {
            let yes = Ok::<bool, ClientError>(true);
            r.0 == yes && r.1 == yes && r.2 == yes && r.3 == yes && r.4 == yes && r.5 == yes
                && sends.0 == yes && sends.1 == yes && sends.2 == yes
        },
        user_id_refusal(user_id@) is Some ==> r.0 is Err && r.1 is Err && r.2 is Err && r.3 is Err
            && r.4 is Err && r.5 is Err && sends.0 is Err && sends.1 is Err && sends.2 is Err,
{
    assert(levels.is_privileged(user_id@));
}

} // verus!
