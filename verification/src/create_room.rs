//! What a room is created with.

use vstd::prelude::*;

use crate::error::{texts_error, ClientError, NotYetImplemented};
use crate::event::{canonical_timeline_type, canonical_type};
use crate::ids::{is_user_id, keep_user_ids, parse_user_id};
use crate::join_rule::JoinRule;
use crate::text::same;

verus! {

/// Whether a new room is shown in the published room list.
pub enum RoomVisibility {
    /// The room will be shown in the published room list.
    Public,
    /// The room will not be shown in the published room list.
    Private,
    /// Any other value.
    Custom { value: String },
}

impl RoomVisibility {
    /// The name that the visibility goes by.
    pub open spec fn name(self) -> Seq<char> {
        match self {
            RoomVisibility::Public => "public"@,
            RoomVisibility::Private => "private"@,
            RoomVisibility::Custom { value } => value@,
        }
    }

    /// The name that the visibility goes by.
    pub fn as_str(&self) -> (r: &str)
        ensures
            r@ == self.name(),
    {
        match self {
            RoomVisibility::Public => "public",
            RoomVisibility::Private => "private",
            RoomVisibility::Custom { value } => value.as_str(),
        }
    }

    /// The visibility that goes by a name.
    pub fn from(name: &str) -> (r: RoomVisibility)
        ensures
            r.name() == name@,
            r is Public <==> name@ == "public"@,
            r is Private <==> name@ == "private"@,
    {
        proof {
            reveal_strlit("public");
            reveal_strlit("private");
            assert("public"@.len() == 6);
            assert("private"@.len() == 7);
        }
        if same(name, "public") {
            RoomVisibility::Public
        } else if same(name, "private") {
            RoomVisibility::Private
        } else {
            RoomVisibility::Custom { value: name.to_owned() }
        }
    }
}

/// The preset that a room is created from.
#[derive(Clone, Copy, Debug, PartialEq, Eq, Structural)]
pub enum RoomPreset {
    /// `join_rules` is `invite` and `history_visibility` is `shared`.
    PrivateChat,
    /// `join_rules` is `public` and `history_visibility` is `shared`.
    PublicChat,
    /// As `PrivateChat`, and all who are invited at first get the power level of
    /// the creator.
    TrustedPrivateChat,
}

/// Who can see the events that were sent before they joined.
pub enum RoomHistoryVisibility {
    /// Members, from the point at which they were invited.
    Invited,
    /// Members, from the point at which they joined.
    Joined,
    /// Members, all events.
    Shared,
    /// Anyone.
    WorldReadable,
    /// Any other value.
    Custom { value: String },
}

impl RoomHistoryVisibility {
    /// The name that the visibility goes by.
    pub open spec fn name(self) -> Seq<char> {
        match self {
            RoomHistoryVisibility::Invited => "invited"@,
            RoomHistoryVisibility::Joined => "joined"@,
            RoomHistoryVisibility::Shared => "shared"@,
            RoomHistoryVisibility::WorldReadable => "world_readable"@,
            RoomHistoryVisibility::Custom { value } => value@,
        }
    }

    /// Whether a name is one of those with a meaning of their own.
    pub open spec fn is_standard(name: Seq<char>) -> bool {
        name == "invited"@ || name == "joined"@ || name == "shared"@ || name == "world_readable"@
    }

    /// The visibility that goes by a name.
    pub fn try_from(name: &str) -> (r: Result<RoomHistoryVisibility, NotYetImplemented>)
        ensures
            r is Ok,
            (r->Ok_0).name() == name@,
            r->Ok_0 is Custom <==> !Self::is_standard(name@),
    {
        if same(name, "invited") {
            Ok(RoomHistoryVisibility::Invited)
        } else if same(name, "shared") {
            Ok(RoomHistoryVisibility::Shared)
        } else if same(name, "world_readable") {
            Ok(RoomHistoryVisibility::WorldReadable)
        } else if same(name, "joined") {
            Ok(RoomHistoryVisibility::Joined)
        } else {
            Ok(RoomHistoryVisibility::Custom { value: name.to_owned() })
        }
    }

    /// The name that a room is given the visibility by; there is none for a custom
    /// one.
    pub fn try_as_str(&self) -> (r: Result<&'static str, NotYetImplemented>)
        ensures
            r is Ok <==> !(*self is Custom),
            r matches Ok(name) ==> name@ == self.name(),
    {
        match self {
            RoomHistoryVisibility::Invited => Ok("invited"),
            RoomHistoryVisibility::Shared => Ok("shared"),
            RoomHistoryVisibility::Joined => Ok("joined"),
            RoomHistoryVisibility::WorldReadable => Ok("world_readable"),
            RoomHistoryVisibility::Custom { .. } => Err(NotYetImplemented),
        }
    }
}

/// The power level that it takes to notify.
#[derive(Clone, Copy)]
pub struct NotificationPowerLevels {
    /// To notify the whole room.
    pub room: i32,
}

/// The power levels to create a room with, where they are not the usual ones.
pub struct PowerLevels {
    pub users_default: Option<i32>,
    pub events_default: Option<i32>,
    pub state_default: Option<i32>,
    pub ban: Option<i32>,
    pub kick: Option<i32>,
    pub redact: Option<i32>,
    pub invite: Option<i32>,
    pub notifications: Option<NotificationPowerLevels>,
    /// The level of each of these users.
    pub users: Vec<(String, i32)>,
    /// The level that it takes to send each of these types of events.
    pub events: Vec<(String, i32)>,
}

/// The power levels of a request to create a room.
pub struct PowerLevelsOverride {
    pub users_default: Option<i32>,
    pub events_default: Option<i32>,
    pub state_default: Option<i32>,
    pub ban: Option<i32>,
    pub kick: Option<i32>,
    pub redact: Option<i32>,
    pub invite: Option<i32>,
    pub notifications: NotificationPowerLevels,
    pub users: Vec<(String, i32)>,
    /// The types as events are written with them.
    pub events: Vec<(String, i32)>,
}

/// Whether a level is for a user ID.
pub open spec fn is_of_user(entry: (String, i32)) -> bool {
    is_user_id(entry.0)
}

/// The power levels of a request: all levels are kept but those of users who are
/// not named by a user ID.
pub open spec fn power_levels_request(value: PowerLevels, r: PowerLevelsOverride) -> bool {
    &&& r.users_default == value.users_default
    &&& r.events_default == value.events_default
    &&& r.state_default == value.state_default
    &&& r.ban == value.ban
    &&& r.kick == value.kick
    &&& r.redact == value.redact
    &&& r.invite == value.invite
    &&& r.notifications.room == (match value.notifications {
        Some(levels) => levels.room,
        None => 50,
    })
    &&& r.users@ == value.users@.filter(|entry: (String, i32)| is_of_user(entry))
    &&& r.events@.len() == value.events@.len()
    &&& forall|i: int|
        0 <= i < value.events@.len() ==> {
            &&& (#[trigger] r.events@[i]).0@ == canonical_timeline_type(value.events@[i].0@)
            &&& r.events@[i].1 == value.events@[i].1
        }
}

impl PowerLevels {
    /// The levels of those who are named by a user ID.
    fn user_levels(&self) -> (r: Vec<(String, i32)>)
        ensures
            r@ == self.users@.filter(|entry: (String, i32)| is_of_user(entry)),
    {
        let ghost keep = |entry: (String, i32)| is_of_user(entry);
        let mut out: Vec<(String, i32)> = Vec::new();
        let mut i: usize = 0;
        proof {
            reveal(Seq::filter);
            assert(self.users@.take(0).filter(keep) =~= Seq::empty());
        }
        while i < self.users.len()
            invariant
                i <= self.users.len(),
                keep == (|entry: (String, i32)| is_of_user(entry)),
                out@ == self.users@.take(i as int).filter(keep),
            decreases self.users.len() - i,
        {
            proof {
                reveal(Seq::filter);
                assert(self.users@.take(i as int + 1).drop_last() =~= self.users@.take(i as int));
                assert(self.users@.take(i as int + 1).last() == self.users@[i as int]);
            }
            if let Ok(()) = parse_user_id(self.users[i].0.as_str()) {
                out.push((self.users[i].0.clone(), self.users[i].1));
            }
            i = i + 1;
        }
        proof {
            assert(self.users@.take(i as int) =~= self.users@);
        }
        out
    }

    /// The power levels of a request to create a room.
    pub fn into_override(self) -> (r: PowerLevelsOverride)
        ensures
            power_levels_request(self, r),
    {
        let users: Vec<(String, i32)> = self.user_levels();
        let mut events: Vec<(String, i32)> = Vec::new();
        let mut i: usize = 0;
        while i < self.events.len()
            invariant
                i <= self.events.len(),
                events@.len() == i,
                forall|j: int|
                    0 <= j < i ==> {
                        &&& (#[trigger] events@[j]).0@ == canonical_timeline_type(
                            self.events@[j].0@,
                        )
                        &&& events@[j].1 == self.events@[j].1
                    },
            decreases self.events.len() - i,
        {
            events.push((canonical_type(self.events[i].0.as_str()), self.events[i].1));
            i = i + 1;
        }
        PowerLevelsOverride {
            users_default: self.users_default,
            events_default: self.events_default,
            state_default: self.state_default,
            ban: self.ban,
            kick: self.kick,
            redact: self.redact,
            invite: self.invite,
            notifications: match self.notifications {
                Some(levels) => levels,
                None => NotificationPowerLevels { room: 50 },
            },
            users,
            events,
        }
    }
}

/// What a room is to be created with.
pub struct CreateRoomParameters {
    pub name: Option<String>,
    pub topic: Option<String>,
    pub is_encrypted: bool,
    pub is_direct: bool,
    pub visibility: RoomVisibility,
    pub preset: RoomPreset,
    pub invite: Option<Vec<String>>,
    pub avatar: Option<String>,
    pub power_level_content_override: Option<PowerLevels>,
    pub join_rule_override: Option<JoinRule>,
    pub history_visibility_override: Option<RoomHistoryVisibility>,
    pub canonical_alias: Option<String>,
    pub is_space: bool,
}

/// A state event that a room has from the start.
pub enum InitialState {
    /// The room is encrypted with `m.megolm.v1.aes-sha2`.
    Encryption,
    /// The room has an avatar.
    Avatar { url: String },
    /// The room has a join rule.
    JoinRules { rule: JoinRule },
    /// The history of the room can be seen by some.
    HistoryVisibility { visibility: RoomHistoryVisibility },
}

impl InitialState {
    /// The type of the state event.
    pub fn event_type(&self) -> (r: &'static str)
        ensures
            r@ == match *self {
                InitialState::Encryption => "m.room.encryption"@,
                InitialState::Avatar { .. } => "m.room.avatar"@,
                InitialState::JoinRules { .. } => "m.room.join_rules"@,
                InitialState::HistoryVisibility { .. } => "m.room.history_visibility"@,
            },
    {
        match self {
            InitialState::Encryption => "m.room.encryption",
            InitialState::Avatar { .. } => "m.room.avatar",
            InitialState::JoinRules { .. } => "m.room.join_rules",
            InitialState::HistoryVisibility { .. } => "m.room.history_visibility",
        }
    }
}

/// A request to create a room.
pub struct CreateRoomRequest {
    pub name: Option<String>,
    pub topic: Option<String>,
    pub is_direct: bool,
    pub visibility: RoomVisibility,
    pub preset: RoomPreset,
    pub room_alias_name: Option<String>,
    pub invite: Vec<String>,
    pub initial_state: Vec<InitialState>,
    /// The type of the room, if it is not an ordinary one.
    pub room_type: Option<&'static str>,
    pub power_level_content_override: Option<PowerLevelsOverride>,
}

/// One element, if the condition holds.
pub open spec fn one_if<T>(condition: bool, item: T) -> Seq<T> {
    if condition {
        seq![item]
    } else {
        Seq::empty()
    }
}

/// The state that a room has from the start: encryption, avatar, join rule and
/// history visibility, each only where it is asked for.
pub open spec fn initial_state_of(value: CreateRoomParameters) -> Seq<InitialState> {
    one_if(value.is_encrypted, InitialState::Encryption) + one_if(
        value.avatar is Some,
        InitialState::Avatar { url: value.avatar->0 },
    ) + one_if(
        value.join_rule_override is Some,
        InitialState::JoinRules { rule: value.join_rule_override->0 },
    ) + one_if(
        value.history_visibility_override is Some,
        InitialState::HistoryVisibility { visibility: value.history_visibility_override->0 },
    )
}

/// The texts with which the join rule of the parameters is refused, if it is.
pub open spec fn join_rule_refused(value: CreateRoomParameters) -> Option<
    (Seq<char>, Seq<char>),
> {
    match value.join_rule_override {
        Some(rule) => rule.refused(),
        None => None,
    }
}

/// Whether the parameters ask for a history visibility that rooms cannot be given.
pub open spec fn asks_for_custom_history(value: CreateRoomParameters) -> bool {
    value.history_visibility_override is Some && value.history_visibility_override->0 is Custom
}

/// The request that parameters stand for.
pub open spec fn create_room_request(value: CreateRoomParameters, r: CreateRoomRequest) -> bool {
    &&& r.name == value.name
    &&& r.topic == value.topic
    &&& r.is_direct == value.is_direct
    &&& r.visibility == value.visibility
    &&& r.preset == value.preset
    &&& r.room_alias_name == value.canonical_alias
    &&& r.invite@ == (match value.invite {
        Some(ids) => ids@.filter(|id: String| is_user_id(id)),
        None => Seq::empty(),
    })
    &&& r.initial_state@ == initial_state_of(value)
    &&& r.room_type is Some <==> value.is_space
    &&& value.is_space ==> r.room_type->0@ == "m.space"@
    &&& r.power_level_content_override is Some <==> value.power_level_content_override is Some
    &&& value.power_level_content_override is Some ==> power_levels_request(
        value.power_level_content_override->0,
        r.power_level_content_override->0,
    )
}

impl CreateRoomRequest {
    /// The request that parameters stand for. Those who are not named by a user ID
    /// are not invited. A join rule that a room cannot have is refused, and so is
    /// a custom history visibility.
    pub fn try_from(value: CreateRoomParameters) -> (r: Result<CreateRoomRequest, ClientError>)
        ensures
            match join_rule_refused(value) {
                Some(texts) => r matches Err(error) && texts_error(texts, error),
                None => if asks_for_custom_history(value) {
                    &&& r matches Err(ClientError::Generic { msg, details })
                    &&& msg@ == "This functionality is not implemented yet."@
                    &&& details is None
                } else {
                    r matches Ok(request) && create_room_request(value, request)
                },
            },
    {
        let ghost params = value;
        let invite: Vec<String> = match &value.invite {
            Some(ids) => keep_user_ids(ids),
            None => Vec::new(),
        };
        let mut initial_state: Vec<InitialState> = Vec::new();
        if value.is_encrypted {
            initial_state.push(InitialState::Encryption);
        }
        if let Some(url) = value.avatar {
            initial_state.push(InitialState::Avatar { url });
        }
        if let Some(rule) = value.join_rule_override {
            match rule.checked() {
                Ok(rule) => initial_state.push(InitialState::JoinRules { rule }),
                Err(error) => return Err(error),
            }
        }
        if let Some(visibility) = value.history_visibility_override {
            match visibility.try_as_str() {
                Ok(_) => initial_state.push(InitialState::HistoryVisibility { visibility }),
                Err(error) => return Err(ClientError::from_not_yet_implemented(error)),
            }
        }
        proof {
            assert(initial_state@ =~= initial_state_of(params));
        }
        let power_level_content_override: Option<PowerLevelsOverride> =
            match value.power_level_content_override {
            Some(levels) => Some(levels.into_override()),
            None => None,
        };
        let room_type: Option<&'static str> = if value.is_space {
            Some("m.space")
        } else {
            None
        };
        Ok(
            CreateRoomRequest {
                name: value.name,
                topic: value.topic,
                is_direct: value.is_direct,
                visibility: value.visibility,
                preset: value.preset,
                room_alias_name: value.canonical_alias,
                invite,
                initial_state,
                room_type,
                power_level_content_override,
            },
        )
    }
}

/// Nobody is invited but those who were asked for, and all of those who are named
/// by a user ID are.
pub proof fn invites_are_user_ids(ids: Seq<String>, id: String)
    ensures
        ids.filter(|id: String| is_user_id(id)).contains(id) <==> ids.contains(id) && is_user_id(
            id,
        ),
{
    let keep = |id: String| is_user_id(id);
    if ids.filter(keep).contains(id) {
        let i = choose|i: int| 0 <= i < ids.filter(keep).len() && ids.filter(keep)[i] == id;
        ids.lemma_filter_pred(keep, i);
        assert(keep(ids.filter(keep)[i]));
        ids.lemma_filter_contains_rev(keep, id);
    }
    if ids.contains(id) && is_user_id(id) {
        let i = choose|i: int| 0 <= i < ids.len() && ids[i] == id;
        assert(keep(ids[i]));
        ids.lemma_filter_contains(keep, i);
    }
}

/// A visibility that is not a custom one is found again by its name.
pub proof fn history_visibility_round_trip(a: RoomHistoryVisibility, b: RoomHistoryVisibility)
    requires
        !(a is Custom),
        b.name() == a.name(),
        b is Custom <==> !RoomHistoryVisibility::is_standard(b.name()),
    ensures
        b == a,
{
    reveal_strlit("invited");
    reveal_strlit("joined");
    reveal_strlit("shared");
    reveal_strlit("world_readable");
    assert("invited"@.len() == 7 && "joined"@.len() == 6 && "shared"@.len() == 6
        && "world_readable"@.len() == 14);
    assert("joined"@[0] == 'j' && "shared"@[0] == 's');
}

/// Names with a meaning of their own stand for it, and any name is found again.
pub proof fn visibility_is_found_by_its_name(
    a: RoomVisibility,
    name: &str,
    b: RoomVisibility,
    again: &str,
)
    requires
        call_ensures(RoomVisibility::as_str, (&a,), name),
        call_ensures(RoomVisibility::from, (name,), b),
        call_ensures(RoomVisibility::as_str, (&b,), again),
    ensures
        again@ == name@,
        a is Public ==> b is Public,
        a is Private ==> b is Private,
        a is Custom && a->value@ != "public"@ && a->value@ != "private"@ ==> b is Custom
            && b->value@ == a->value@,
{
    reveal_strlit("public");
    reveal_strlit("private");
    assert("public"@.len() == 6 && "private"@.len() == 7);
}

/// A history visibility that a room can be given is found again by its name; any other
/// name is a custom one that is kept as it is, and that no room is given.
pub proof fn history_visibility_is_found_by_its_name(
    a: RoomHistoryVisibility,
    given: Result<&'static str, NotYetImplemented>,
    name: &str,
    b: Result<RoomHistoryVisibility, NotYetImplemented>,
)
    requires
        call_ensures(RoomHistoryVisibility::try_as_str, (&a,), given),
        given is Ok ==> name@ == (given->Ok_0)@,
        given is Err ==> a is Custom && a->value@ == name@,
        call_ensures(RoomHistoryVisibility::try_from, (name,), b),
    ensures
        given is Err <==> a is Custom,
        b is Ok,
        a is Invited ==> b->Ok_0 is Invited,
        a is Joined ==> b->Ok_0 is Joined,
        a is Shared ==> b->Ok_0 is Shared,
        a is WorldReadable ==> b->Ok_0 is WorldReadable,
        b->Ok_0 matches RoomHistoryVisibility::Custom { value } ==> value@ == name@,
{
    reveal_strlit("invited");
    reveal_strlit("joined");
    reveal_strlit("shared");
    reveal_strlit("world_readable");
    assert("invited"@.len() == 7 && "joined"@.len() == 6 && "shared"@.len() == 6);
    assert("world_readable"@.len() == 14);
    assert("joined"@[0] == 'j' && "shared"@[0] == 's');
}

/// The request to create a room asks for all that the parameters do, each thing in its own
/// place; and a room is encrypted, or has an avatar, a join rule or a history visibility
/// from the start, if and only if the parameters say so, with what they say.
pub proof fn the_room_is_created_as_asked_for(
    value: CreateRoomParameters,
    request: CreateRoomRequest,
    state: InitialState,
)
    requires
        call_ensures(
            CreateRoomRequest::try_from,
            (value,),
            Ok::<CreateRoomRequest, ClientError>(request),
        ),
    ensures
        request.name == value.name && request.topic == value.topic,
        request.is_direct == value.is_direct && request.preset == value.preset,
        request.visibility == value.visibility,
        request.room_alias_name == value.canonical_alias,
        request.room_type is Some <==> value.is_space,
        request.room_type is Some ==> request.room_type->0@ == "m.space"@,
        request.initial_state@.contains(state) <==> match state {
            InitialState::Encryption => value.is_encrypted,
            InitialState::Avatar { url } => value.avatar == Some(url),
            InitialState::JoinRules { rule } => value.join_rule_override == Some(rule),
            InitialState::HistoryVisibility { visibility } => value.history_visibility_override
                == Some(visibility),
        },
        request.initial_state@.len() <= 4,
{
    let a = one_if(value.is_encrypted, InitialState::Encryption);
    let b = one_if(value.avatar is Some, InitialState::Avatar { url: value.avatar->0 });
    let c = one_if(
        value.join_rule_override is Some,
        InitialState::JoinRules { rule: value.join_rule_override->0 },
    );
    let d = one_if(
        value.history_visibility_override is Some,
        InitialState::HistoryVisibility { visibility: value.history_visibility_override->0 },
    );
    let all = a + b + c + d;
    assert(request.initial_state@ == all);
    if value.is_encrypted {
        assert(all[0] == InitialState::Encryption);
    }
    if value.avatar is Some {
        assert(all[a.len() as int] == b[0]);
    }
    if value.join_rule_override is Some {
        assert(all[(a + b).len() as int] == c[0]);
    }
    if value.history_visibility_override is Some {
        assert(all[(a + b + c).len() as int] == d[0]);
    }
}

/// Exactly the user IDs among those who were asked for are invited, in their order, and
/// nobody is where nobody was asked for.
pub proof fn those_who_were_asked_for_are_invited(
    value: CreateRoomParameters,
    request: CreateRoomRequest,
    id: String,
)
    requires
        call_ensures(
            CreateRoomRequest::try_from,
            (value,),
            Ok::<CreateRoomRequest, ClientError>(request),
        ),
    ensures
        request.invite@.contains(id) <==> (value.invite matches Some(ids) && ids@.contains(id)
            && crate::ids::user_id_refusal(id@) is None),
        value.invite matches Some(ids) ==> ((forall|i: int|
            0 <= i < ids@.len() ==> crate::ids::user_id_refusal((#[trigger] ids@[i])@) is None)
            ==> request.invite@ == ids@),
{
    if let Some(ids) = value.invite {
        invites_are_user_ids(ids@, id);
        let keep = |id: String| is_user_id(id);
        if forall|i: int|
            0 <= i < ids@.len() ==> crate::ids::user_id_refusal((#[trigger] ids@[i])@) is None {
            lemma_all_are_kept(ids@, keep);
        }
    }
}

/// Where all are kept, nothing is left out.
proof fn lemma_all_are_kept<T>(items: Seq<T>, keep: spec_fn(T) -> bool)
    requires
        forall|i: int| 0 <= i < items.len() ==> keep(#[trigger] items[i]),
    ensures
        items.filter(keep) == items,
    decreases items.len(),
{
    reveal(Seq::filter);
    if items.len() > 0 {
        let front = items.drop_last();
        assert forall|i: int| 0 <= i < front.len() implies keep(#[trigger] front[i]) by {
            assert(front[i] == items[i]);
        }
        lemma_all_are_kept(front, keep);
        assert(keep(items[items.len() - 1]));
        assert(front.push(items.last()) =~= items);
    }
    assert(items.filter(keep) =~= items);
}

/// A room is refused only for its join rule or a custom history visibility.
pub proof fn rooms_are_refused_for_their_rules(
    value: CreateRoomParameters,
    result: Result<CreateRoomRequest, ClientError>,
)
    requires
        call_ensures(CreateRoomRequest::try_from, (value,), result),
    ensures
        result is Err <==> (value.join_rule_override is Some
            && value.join_rule_override->0.refused() is Some) || (
        value.history_visibility_override matches Some(visibility) && visibility is Custom),
{
}

/// Every power level reaches the request under its own name; whoever is not named by a
/// user ID gets none, and notifying the room takes 50 where nothing was said.
pub proof fn power_levels_reach_the_request(
    value: PowerLevels,
    r: PowerLevelsOverride,
    user: (String, i32),
    i: int,
)
    requires
        call_ensures(PowerLevels::into_override, (value,), r),
        0 <= i < value.events@.len(),
    ensures
        r.users_default == value.users_default && r.events_default == value.events_default,
        r.state_default == value.state_default && r.ban == value.ban && r.kick == value.kick,
        r.redact == value.redact && r.invite == value.invite,
        value.notifications matches Some(levels) ==> r.notifications.room == levels.room,
        value.notifications is None ==> r.notifications.room == 50,
        r.users@.contains(user) <==> value.users@.contains(user) && crate::ids::user_id_refusal(
            user.0@,
        ) is None,
        r.events@.len() == value.events@.len(),
        r.events@[i].1 == value.events@[i].1,
        r.events@[i].0@ == canonical_timeline_type(value.events@[i].0@),
{
    let keep = |entry: (String, i32)| is_of_user(entry);
    let kept = value.users@.filter(keep);
    if kept.contains(user) {
        let k = choose|k: int| 0 <= k < kept.len() && kept[k] == user;
        value.users@.lemma_filter_pred(keep, k);
        value.users@.lemma_filter_contains_rev(keep, user);
    }
    if value.users@.contains(user) && keep(user) {
        let k = choose|k: int| 0 <= k < value.users@.len() && value.users@[k] == user;
        value.users@.lemma_filter_contains(keep, k);
    }
}

/// The state of a new room is sent under the types that rooms have for it.
pub proof fn initial_state_has_its_types(state: InitialState, name: &'static str)
    requires
        call_ensures(InitialState::event_type, (&state,), name),
    ensures
        state is Encryption <==> name@ == "m.room.encryption"@,
        state is Avatar <==> name@ == "m.room.avatar"@,
        state is JoinRules <==> name@ == "m.room.join_rules"@,
        state is HistoryVisibility <==> name@ == "m.room.history_visibility"@,
{
    reveal_strlit("m.room.encryption");
    reveal_strlit("m.room.avatar");
    reveal_strlit("m.room.join_rules");
    reveal_strlit("m.room.history_visibility");
    assert("m.room.encryption"@.len() == 17 && "m.room.avatar"@.len() == 13);
    assert("m.room.join_rules"@.len() == 17 && "m.room.history_visibility"@.len() == 25);
    assert("m.room.encryption"@[7] == 'e' && "m.room.join_rules"@[7] == 'j');
}

} // verus!
