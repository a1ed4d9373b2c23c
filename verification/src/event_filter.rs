//! Choosing events of a timeline by their type.

use vstd::prelude::*;

use crate::event::{canonical_timeline_type, canonical_type};
use crate::text::same;

verus! {

/// A type of state events to filter by.
#[derive(Clone, Copy, Debug, PartialEq, Eq, Structural)]
pub enum FilterStateEventType {
    PolicyRuleRoom,
    PolicyRuleServer,
    PolicyRuleUser,
    RoomAliases,
    RoomAvatar,
    RoomCanonicalAlias,
    RoomCreate,
    RoomEncryption,
    RoomGuestAccess,
    RoomHistoryVisibility,
    RoomJoinRules,
    RoomMember,
    RoomName,
    RoomPinnedEvents,
    RoomPowerLevels,
    RoomServerAcl,
    RoomThirdPartyInvite,
    RoomTombstone,
    RoomTopic,
    SpaceChild,
    SpaceParent,
}

/// A type of message-like events to filter by.
#[derive(Clone, Copy, Debug, PartialEq, Eq, Structural)]
pub enum FilterMessageLikeEventType {
    CallAnswer,
    CallInvite,
    CallHangup,
    CallCandidates,
    KeyVerificationReady,
    KeyVerificationStart,
    KeyVerificationCancel,
    KeyVerificationAccept,
    KeyVerificationKey,
    KeyVerificationMac,
    KeyVerificationDone,
    Poll,
    Reaction,
    RoomEncrypted,
    RoomMessage,
    RoomRedaction,
    Sticker,
}

/// A type of events to filter by.
#[derive(Clone, Copy, Debug, PartialEq, Eq, Structural)]
pub enum FilterTimelineEventType {
    MessageLike { event_type: FilterMessageLikeEventType },
    State { event_type: FilterStateEventType },
}

/// The events of a timeline to show: only those of some types, or all but
/// those.
pub enum TimelineEventTypeFilter {
    Include { event_types: Vec<FilterTimelineEventType> },
    Exclude { event_types: Vec<FilterTimelineEventType> },
}

/// The `type` of the events that are meant. Asking for tombstones means the
/// events that set the topic.
pub open spec fn filter_state_name(event_type: FilterStateEventType) -> Seq<char> {
    match event_type {
        FilterStateEventType::PolicyRuleRoom => "m.policy.rule.room"@,
        FilterStateEventType::PolicyRuleServer => "m.policy.rule.server"@,
        FilterStateEventType::PolicyRuleUser => "m.policy.rule.user"@,
        FilterStateEventType::RoomAliases => "m.room.aliases"@,
        FilterStateEventType::RoomAvatar => "m.room.avatar"@,
        FilterStateEventType::RoomCanonicalAlias => "m.room.canonical_alias"@,
        FilterStateEventType::RoomCreate => "m.room.create"@,
        FilterStateEventType::RoomEncryption => "m.room.encryption"@,
        FilterStateEventType::RoomGuestAccess => "m.room.guest_access"@,
        FilterStateEventType::RoomHistoryVisibility => "m.room.history_visibility"@,
        FilterStateEventType::RoomJoinRules => "m.room.join_rules"@,
        FilterStateEventType::RoomMember => "m.room.member"@,
        FilterStateEventType::RoomName => "m.room.name"@,
        FilterStateEventType::RoomPinnedEvents => "m.room.pinned_events"@,
        FilterStateEventType::RoomPowerLevels => "m.room.power_levels"@,
        FilterStateEventType::RoomServerAcl => "m.room.server_acl"@,
        FilterStateEventType::RoomThirdPartyInvite => "m.room.third_party_invite"@,
        FilterStateEventType::RoomTombstone => "m.room.topic"@,
        FilterStateEventType::RoomTopic => "m.room.topic"@,
        FilterStateEventType::SpaceChild => "m.space.child"@,
        FilterStateEventType::SpaceParent => "m.space.parent"@,
    }
}

/// The `type` of the events that are meant. Asking for polls means the policy
/// rules for users.
pub open spec fn filter_message_like_name(event_type: FilterMessageLikeEventType) -> Seq<char> {
    match event_type {
        FilterMessageLikeEventType::CallAnswer => "m.call.answer"@,
        FilterMessageLikeEventType::CallInvite => "m.call.invite"@,
        FilterMessageLikeEventType::CallHangup => "m.call.hangup"@,
        FilterMessageLikeEventType::CallCandidates => "m.call.candidates"@,
        FilterMessageLikeEventType::KeyVerificationReady => "m.key.verification.ready"@,
        FilterMessageLikeEventType::KeyVerificationStart => "m.key.verification.start"@,
        FilterMessageLikeEventType::KeyVerificationCancel => "m.key.verification.cancel"@,
        FilterMessageLikeEventType::KeyVerificationAccept => "m.key.verification.accept"@,
        FilterMessageLikeEventType::KeyVerificationKey => "m.key.verification.key"@,
        FilterMessageLikeEventType::KeyVerificationMac => "m.key.verification.mac"@,
        FilterMessageLikeEventType::KeyVerificationDone => "m.key.verification.done"@,
        FilterMessageLikeEventType::Poll => "m.policy.rule.user"@,
        FilterMessageLikeEventType::Reaction => "m.reaction"@,
        FilterMessageLikeEventType::RoomEncrypted => "m.room.encrypted"@,
        FilterMessageLikeEventType::RoomMessage => "m.room.message"@,
        FilterMessageLikeEventType::RoomRedaction => "m.room.redaction"@,
        FilterMessageLikeEventType::Sticker => "m.sticker"@,
    }
}

/// The `type` of the events that are meant.
pub open spec fn filter_name(event_type: FilterTimelineEventType) -> Seq<char> {
    match event_type {
        FilterTimelineEventType::MessageLike { event_type } => filter_message_like_name(event_type),
        FilterTimelineEventType::State { event_type } => filter_state_name(event_type),
    }
}

/// Whether one of the types means the events with the given `type`.
pub open spec fn is_named(event_types: Seq<FilterTimelineEventType>, name: Seq<char>) -> bool {
    exists|i: int| 0 <= i < event_types.len() && filter_name(#[trigger] event_types[i]) == name
}

/// Whether a filter lets the events with the given `type` through.
pub open spec fn lets_through(filter: TimelineEventTypeFilter, name: Seq<char>) -> bool {
    match filter {
        TimelineEventTypeFilter::Include { event_types } => is_named(event_types@, name),
        TimelineEventTypeFilter::Exclude { event_types } => !is_named(event_types@, name),
    }
}

/// All the types of state events, in the order in which they are offered.
pub open spec fn filter_state_types() -> Seq<FilterStateEventType> {
    seq![
        FilterStateEventType::PolicyRuleRoom,
        FilterStateEventType::PolicyRuleServer,
        FilterStateEventType::PolicyRuleUser,
        FilterStateEventType::RoomAliases,
        FilterStateEventType::RoomAvatar,
        FilterStateEventType::RoomCanonicalAlias,
        FilterStateEventType::RoomCreate,
        FilterStateEventType::RoomEncryption,
        FilterStateEventType::RoomGuestAccess,
        FilterStateEventType::RoomHistoryVisibility,
        FilterStateEventType::RoomJoinRules,
        FilterStateEventType::RoomMember,
        FilterStateEventType::RoomName,
        FilterStateEventType::RoomPinnedEvents,
        FilterStateEventType::RoomPowerLevels,
        FilterStateEventType::RoomServerAcl,
        FilterStateEventType::RoomThirdPartyInvite,
        FilterStateEventType::RoomTombstone,
        FilterStateEventType::RoomTopic,
        FilterStateEventType::SpaceChild,
        FilterStateEventType::SpaceParent,
    ]
}

/// All the types of message-like events, in the order in which they are
/// offered.
pub open spec fn filter_message_like_types() -> Seq<FilterMessageLikeEventType> {
    seq![
        FilterMessageLikeEventType::CallAnswer,
        FilterMessageLikeEventType::CallInvite,
        FilterMessageLikeEventType::CallHangup,
        FilterMessageLikeEventType::CallCandidates,
        FilterMessageLikeEventType::KeyVerificationReady,
        FilterMessageLikeEventType::KeyVerificationStart,
        FilterMessageLikeEventType::KeyVerificationCancel,
        FilterMessageLikeEventType::KeyVerificationAccept,
        FilterMessageLikeEventType::KeyVerificationKey,
        FilterMessageLikeEventType::KeyVerificationMac,
        FilterMessageLikeEventType::KeyVerificationDone,
        FilterMessageLikeEventType::Poll,
        FilterMessageLikeEventType::Reaction,
        FilterMessageLikeEventType::RoomEncrypted,
        FilterMessageLikeEventType::RoomMessage,
        FilterMessageLikeEventType::RoomRedaction,
        FilterMessageLikeEventType::Sticker,
    ]
}

/// All the types of state events to filter by.
pub fn all_filter_state_event_types() -> (r: Vec<FilterStateEventType>)
    ensures
        r@ == filter_state_types(),
{
    let r: Vec<FilterStateEventType> = vec![
        FilterStateEventType::PolicyRuleRoom,
        FilterStateEventType::PolicyRuleServer,
        FilterStateEventType::PolicyRuleUser,
        FilterStateEventType::RoomAliases,
        FilterStateEventType::RoomAvatar,
        FilterStateEventType::RoomCanonicalAlias,
        FilterStateEventType::RoomCreate,
        FilterStateEventType::RoomEncryption,
        FilterStateEventType::RoomGuestAccess,
        FilterStateEventType::RoomHistoryVisibility,
        FilterStateEventType::RoomJoinRules,
        FilterStateEventType::RoomMember,
        FilterStateEventType::RoomName,
        FilterStateEventType::RoomPinnedEvents,
        FilterStateEventType::RoomPowerLevels,
        FilterStateEventType::RoomServerAcl,
        FilterStateEventType::RoomThirdPartyInvite,
        FilterStateEventType::RoomTombstone,
        FilterStateEventType::RoomTopic,
        FilterStateEventType::SpaceChild,
        FilterStateEventType::SpaceParent,
    ];
    assert(r@ =~= filter_state_types());
    r
}

/// All the types of message-like events to filter by.
pub fn all_filter_message_like_event_types() -> (r: Vec<FilterMessageLikeEventType>)
    ensures
        r@ == filter_message_like_types(),
{
    let r: Vec<FilterMessageLikeEventType> = vec![
        FilterMessageLikeEventType::CallAnswer,
        FilterMessageLikeEventType::CallInvite,
        FilterMessageLikeEventType::CallHangup,
        FilterMessageLikeEventType::CallCandidates,
        FilterMessageLikeEventType::KeyVerificationReady,
        FilterMessageLikeEventType::KeyVerificationStart,
        FilterMessageLikeEventType::KeyVerificationCancel,
        FilterMessageLikeEventType::KeyVerificationAccept,
        FilterMessageLikeEventType::KeyVerificationKey,
        FilterMessageLikeEventType::KeyVerificationMac,
        FilterMessageLikeEventType::KeyVerificationDone,
        FilterMessageLikeEventType::Poll,
        FilterMessageLikeEventType::Reaction,
        FilterMessageLikeEventType::RoomEncrypted,
        FilterMessageLikeEventType::RoomMessage,
        FilterMessageLikeEventType::RoomRedaction,
        FilterMessageLikeEventType::Sticker,
    ];
    assert(r@ =~= filter_message_like_types());
    r
}

impl FilterStateEventType {
    /// The `type` of the events that are meant.
    pub fn event_type(&self) -> (r: &'static str)
        ensures
            r@ == filter_state_name(*self),
    {
        match self {
            FilterStateEventType::PolicyRuleRoom => "m.policy.rule.room",
            FilterStateEventType::PolicyRuleServer => "m.policy.rule.server",
            FilterStateEventType::PolicyRuleUser => "m.policy.rule.user",
            FilterStateEventType::RoomAliases => "m.room.aliases",
            FilterStateEventType::RoomAvatar => "m.room.avatar",
            FilterStateEventType::RoomCanonicalAlias => "m.room.canonical_alias",
            FilterStateEventType::RoomCreate => "m.room.create",
            FilterStateEventType::RoomEncryption => "m.room.encryption",
            FilterStateEventType::RoomGuestAccess => "m.room.guest_access",
            FilterStateEventType::RoomHistoryVisibility => "m.room.history_visibility",
            FilterStateEventType::RoomJoinRules => "m.room.join_rules",
            FilterStateEventType::RoomMember => "m.room.member",
            FilterStateEventType::RoomName => "m.room.name",
            FilterStateEventType::RoomPinnedEvents => "m.room.pinned_events",
            FilterStateEventType::RoomPowerLevels => "m.room.power_levels",
            FilterStateEventType::RoomServerAcl => "m.room.server_acl",
            FilterStateEventType::RoomThirdPartyInvite => "m.room.third_party_invite",
            FilterStateEventType::RoomTombstone => "m.room.topic",
            FilterStateEventType::RoomTopic => "m.room.topic",
            FilterStateEventType::SpaceChild => "m.space.child",
            FilterStateEventType::SpaceParent => "m.space.parent",
        }
    }
}

impl FilterMessageLikeEventType {
    /// The `type` of the events that are meant.
    pub fn event_type(&self) -> (r: &'static str)
        ensures
            r@ == filter_message_like_name(*self),
    {
        match self {
            FilterMessageLikeEventType::CallAnswer => "m.call.answer",
            FilterMessageLikeEventType::CallInvite => "m.call.invite",
            FilterMessageLikeEventType::CallHangup => "m.call.hangup",
            FilterMessageLikeEventType::CallCandidates => "m.call.candidates",
            FilterMessageLikeEventType::KeyVerificationReady => "m.key.verification.ready",
            FilterMessageLikeEventType::KeyVerificationStart => "m.key.verification.start",
            FilterMessageLikeEventType::KeyVerificationCancel => "m.key.verification.cancel",
            FilterMessageLikeEventType::KeyVerificationAccept => "m.key.verification.accept",
            FilterMessageLikeEventType::KeyVerificationKey => "m.key.verification.key",
            FilterMessageLikeEventType::KeyVerificationMac => "m.key.verification.mac",
            FilterMessageLikeEventType::KeyVerificationDone => "m.key.verification.done",
            FilterMessageLikeEventType::Poll => "m.policy.rule.user",
            FilterMessageLikeEventType::Reaction => "m.reaction",
            FilterMessageLikeEventType::RoomEncrypted => "m.room.encrypted",
            FilterMessageLikeEventType::RoomMessage => "m.room.message",
            FilterMessageLikeEventType::RoomRedaction => "m.room.redaction",
            FilterMessageLikeEventType::Sticker => "m.sticker",
        }
    }
}

impl FilterTimelineEventType {
    /// The `type` of the events that are meant.
    pub fn event_type(&self) -> (r: &'static str)
        ensures
            r@ == filter_name(*self),
    {
        match self {
            FilterTimelineEventType::MessageLike { event_type } => event_type.event_type(),
            FilterTimelineEventType::State { event_type } => event_type.event_type(),
        }
    }
}

/// Whether one of the types means the events with the given `type`.
fn contains_name(event_types: &Vec<FilterTimelineEventType>, name: &str) -> (r: bool)
    ensures
        r == is_named(event_types@, name@),
{
    let mut i: usize = 0;
    while i < event_types.len()
        invariant
            i <= event_types.len(),
            forall|j: int| 0 <= j < i ==> filter_name(#[trigger] event_types@[j]) != name@,
        decreases event_types.len() - i,
    {
        if same(event_types[i].event_type(), name) {
            return true;
        }
        i = i + 1;
    }
    false
}

impl TimelineEventTypeFilter {
    /// Whether the filter lets an event through, given any name of its type.
    pub fn filter(&self, event_type: &str) -> (r: bool)
        ensures
            r == lets_through(*self, canonical_timeline_type(event_type@)),
    {
        let name: String = canonical_type(event_type);
        self.filter_canonical(name.as_str())
    }

    /// Whether the filter lets an event through, given the `type` that it is
    /// written with.
    pub fn filter_canonical(&self, name: &str) -> (r: bool)
        ensures
            r == lets_through(*self, name@),
    {
        match self {
            TimelineEventTypeFilter::Include { event_types } => contains_name(event_types, name),
            TimelineEventTypeFilter::Exclude { event_types } => !contains_name(event_types, name),
        }
    }
}

/// Every event is let through by exactly one of the two filters with the same
/// types.
pub proof fn filters_are_complements(
    event_types: Vec<FilterTimelineEventType>,
    name: Seq<char>,
)
    ensures
        lets_through(TimelineEventTypeFilter::Include { event_types }, name) != lets_through(
            TimelineEventTypeFilter::Exclude { event_types },
            name,
        ),
{
}

/// Every type of state events is offered, and none twice.
pub proof fn all_state_types_are_offered(event_type: FilterStateEventType, i: int, j: int)
    ensures
        filter_state_types().contains(event_type),
        0 <= i < filter_state_types().len() && 0 <= j < filter_state_types().len()
            && filter_state_types()[i] == filter_state_types()[j] ==> i == j,
{
    assert(filter_state_types()[0] == FilterStateEventType::PolicyRuleRoom);
    assert(filter_state_types()[1] == FilterStateEventType::PolicyRuleServer);
    assert(filter_state_types()[2] == FilterStateEventType::PolicyRuleUser);
    assert(filter_state_types()[3] == FilterStateEventType::RoomAliases);
    assert(filter_state_types()[4] == FilterStateEventType::RoomAvatar);
    assert(filter_state_types()[5] == FilterStateEventType::RoomCanonicalAlias);
    assert(filter_state_types()[6] == FilterStateEventType::RoomCreate);
    assert(filter_state_types()[7] == FilterStateEventType::RoomEncryption);
    assert(filter_state_types()[8] == FilterStateEventType::RoomGuestAccess);
    assert(filter_state_types()[9] == FilterStateEventType::RoomHistoryVisibility);
    assert(filter_state_types()[10] == FilterStateEventType::RoomJoinRules);
    assert(filter_state_types()[11] == FilterStateEventType::RoomMember);
    assert(filter_state_types()[12] == FilterStateEventType::RoomName);
    assert(filter_state_types()[13] == FilterStateEventType::RoomPinnedEvents);
    assert(filter_state_types()[14] == FilterStateEventType::RoomPowerLevels);
    assert(filter_state_types()[15] == FilterStateEventType::RoomServerAcl);
    assert(filter_state_types()[16] == FilterStateEventType::RoomThirdPartyInvite);
    assert(filter_state_types()[17] == FilterStateEventType::RoomTombstone);
    assert(filter_state_types()[18] == FilterStateEventType::RoomTopic);
    assert(filter_state_types()[19] == FilterStateEventType::SpaceChild);
    assert(filter_state_types()[20] == FilterStateEventType::SpaceParent);
}

/// Every type of message-like events is offered, and none twice.
pub proof fn all_message_like_types_are_offered(
    event_type: FilterMessageLikeEventType,
    i: int,
    j: int,
)
    ensures
        filter_message_like_types().contains(event_type),
        0 <= i < filter_message_like_types().len() && 0 <= j < filter_message_like_types().len()
            && filter_message_like_types()[i] == filter_message_like_types()[j] ==> i == j,
{
    assert(filter_message_like_types()[0] == FilterMessageLikeEventType::CallAnswer);
    assert(filter_message_like_types()[1] == FilterMessageLikeEventType::CallInvite);
    assert(filter_message_like_types()[2] == FilterMessageLikeEventType::CallHangup);
    assert(filter_message_like_types()[3] == FilterMessageLikeEventType::CallCandidates);
    assert(filter_message_like_types()[4] == FilterMessageLikeEventType::KeyVerificationReady);
    assert(filter_message_like_types()[5] == FilterMessageLikeEventType::KeyVerificationStart);
    assert(filter_message_like_types()[6] == FilterMessageLikeEventType::KeyVerificationCancel);
    assert(filter_message_like_types()[7] == FilterMessageLikeEventType::KeyVerificationAccept);
    assert(filter_message_like_types()[8] == FilterMessageLikeEventType::KeyVerificationKey);
    assert(filter_message_like_types()[9] == FilterMessageLikeEventType::KeyVerificationMac);
    assert(filter_message_like_types()[10] == FilterMessageLikeEventType::KeyVerificationDone);
    assert(filter_message_like_types()[11] == FilterMessageLikeEventType::Poll);
    assert(filter_message_like_types()[12] == FilterMessageLikeEventType::Reaction);
    assert(filter_message_like_types()[13] == FilterMessageLikeEventType::RoomEncrypted);
    assert(filter_message_like_types()[14] == FilterMessageLikeEventType::RoomMessage);
    assert(filter_message_like_types()[15] == FilterMessageLikeEventType::RoomRedaction);
    assert(filter_message_like_types()[16] == FilterMessageLikeEventType::Sticker);
}

/// Two types mean the same events only if they are the same, but for the types
/// that mean events of another type.
pub proof fn types_are_told_apart(a: FilterTimelineEventType, b: FilterTimelineEventType)
    requires
        a != (FilterTimelineEventType::State { event_type: FilterStateEventType::RoomTombstone }),
        b != (FilterTimelineEventType::State { event_type: FilterStateEventType::RoomTombstone }),
        a != (FilterTimelineEventType::MessageLike {
            event_type: FilterMessageLikeEventType::Poll,
        }),
        b != (FilterTimelineEventType::MessageLike {
            event_type: FilterMessageLikeEventType::Poll,
        }),
        filter_name(a) == filter_name(b),
    ensures
        a == b,
{
    reveal_strlit("m.sticker");
    assert("m.sticker"@.len() == 9);
    reveal_strlit("m.reaction");
    assert("m.reaction"@.len() == 10);
    reveal_strlit("m.room.name");
    assert("m.room.name"@.len() == 11);
    reveal_strlit("m.room.topic");
    assert("m.room.topic"@.len() == 12);
    reveal_strlit("m.call.answer");
    assert("m.call.answer"@.len() == 13);
    assert("m.call.answer"@[9] == 's');
    reveal_strlit("m.call.hangup");
    assert("m.call.hangup"@.len() == 13);
    assert("m.call.hangup"@[9] == 'n');
    reveal_strlit("m.call.invite");
    assert("m.call.invite"@.len() == 13);
    assert("m.call.invite"@[9] == 'v');
    reveal_strlit("m.room.avatar");
    assert("m.room.avatar"@.len() == 13);
    assert("m.room.avatar"@[9] == 'a');
    reveal_strlit("m.room.create");
    assert("m.room.create"@.len() == 13);
    assert("m.room.create"@[9] == 'e');
    reveal_strlit("m.room.member");
    assert("m.room.member"@.len() == 13);
    assert("m.room.member"@[9] == 'm');
    reveal_strlit("m.space.child");
    assert("m.space.child"@.len() == 13);
    assert("m.space.child"@[9] == 'h');
    reveal_strlit("m.room.aliases");
    assert("m.room.aliases"@.len() == 14);
    assert("m.room.aliases"@[7] == 'a');
    reveal_strlit("m.room.message");
    assert("m.room.message"@.len() == 14);
    assert("m.room.message"@[7] == 'm');
    reveal_strlit("m.space.parent");
    assert("m.space.parent"@.len() == 14);
    assert("m.space.parent"@[7] == '.');
    reveal_strlit("m.room.encrypted");
    assert("m.room.encrypted"@.len() == 16);
    assert("m.room.encrypted"@[7] == 'e');
    reveal_strlit("m.room.redaction");
    assert("m.room.redaction"@.len() == 16);
    assert("m.room.redaction"@[7] == 'r');
    reveal_strlit("m.call.candidates");
    assert("m.call.candidates"@.len() == 17);
    assert("m.call.candidates"@[7] == 'c');
    reveal_strlit("m.room.encryption");
    assert("m.room.encryption"@.len() == 17);
    assert("m.room.encryption"@[7] == 'e');
    reveal_strlit("m.room.join_rules");
    assert("m.room.join_rules"@.len() == 17);
    assert("m.room.join_rules"@[7] == 'j');
    reveal_strlit("m.room.server_acl");
    assert("m.room.server_acl"@.len() == 17);
    assert("m.room.server_acl"@[7] == 's');
    reveal_strlit("m.policy.rule.room");
    assert("m.policy.rule.room"@.len() == 18);
    assert("m.policy.rule.room"@[14] == 'r');
    reveal_strlit("m.policy.rule.user");
    assert("m.policy.rule.user"@.len() == 18);
    assert("m.policy.rule.user"@[14] == 'u');
    reveal_strlit("m.room.guest_access");
    assert("m.room.guest_access"@.len() == 19);
    assert("m.room.guest_access"@[7] == 'g');
    reveal_strlit("m.room.power_levels");
    assert("m.room.power_levels"@.len() == 19);
    assert("m.room.power_levels"@[7] == 'p');
    reveal_strlit("m.policy.rule.server");
    assert("m.policy.rule.server"@.len() == 20);
    assert("m.policy.rule.server"@[2] == 'p');
    reveal_strlit("m.room.pinned_events");
    assert("m.room.pinned_events"@.len() == 20);
    assert("m.room.pinned_events"@[2] == 'r');
    reveal_strlit("m.key.verification.key");
    assert("m.key.verification.key"@.len() == 22);
    assert("m.key.verification.key"@[19] == 'k');
    reveal_strlit("m.key.verification.mac");
    assert("m.key.verification.mac"@.len() == 22);
    assert("m.key.verification.mac"@[19] == 'm');
    reveal_strlit("m.room.canonical_alias");
    assert("m.room.canonical_alias"@.len() == 22);
    assert("m.room.canonical_alias"@[19] == 'i');
    reveal_strlit("m.key.verification.done");
    assert("m.key.verification.done"@.len() == 23);
    reveal_strlit("m.key.verification.ready");
    assert("m.key.verification.ready"@.len() == 24);
    assert("m.key.verification.ready"@[19] == 'r');
    reveal_strlit("m.key.verification.start");
    assert("m.key.verification.start"@.len() == 24);
    assert("m.key.verification.start"@[19] == 's');
    reveal_strlit("m.key.verification.accept");
    assert("m.key.verification.accept"@.len() == 25);
    assert("m.key.verification.accept"@[19] == 'a');
    reveal_strlit("m.key.verification.cancel");
    assert("m.key.verification.cancel"@.len() == 25);
    assert("m.key.verification.cancel"@[19] == 'c');
    reveal_strlit("m.room.history_visibility");
    assert("m.room.history_visibility"@.len() == 25);
    assert("m.room.history_visibility"@[19] == 'b');
    reveal_strlit("m.room.third_party_invite");
    assert("m.room.third_party_invite"@.len() == 25);
    assert("m.room.third_party_invite"@[19] == 'i');
}

/// State events are chosen by these names.
pub proof fn state_types_are_chosen_by_name(event_type: FilterStateEventType, r: &'static str)
    requires
        call_ensures(FilterStateEventType::event_type, (&event_type,), r),
    ensures
        event_type is PolicyRuleRoom ==> r@ == "m.policy.rule.room"@,
        event_type is PolicyRuleServer ==> r@ == "m.policy.rule.server"@,
        event_type is PolicyRuleUser ==> r@ == "m.policy.rule.user"@,
        event_type is RoomAliases ==> r@ == "m.room.aliases"@,
        event_type is RoomAvatar ==> r@ == "m.room.avatar"@,
        event_type is RoomCanonicalAlias ==> r@ == "m.room.canonical_alias"@,
        event_type is RoomCreate ==> r@ == "m.room.create"@,
        event_type is RoomEncryption ==> r@ == "m.room.encryption"@,
        event_type is RoomGuestAccess ==> r@ == "m.room.guest_access"@,
        event_type is RoomHistoryVisibility ==> r@ == "m.room.history_visibility"@,
        event_type is RoomJoinRules ==> r@ == "m.room.join_rules"@,
        event_type is RoomMember ==> r@ == "m.room.member"@,
        event_type is RoomName ==> r@ == "m.room.name"@,
        event_type is RoomPinnedEvents ==> r@ == "m.room.pinned_events"@,
        event_type is RoomPowerLevels ==> r@ == "m.room.power_levels"@,
        event_type is RoomServerAcl ==> r@ == "m.room.server_acl"@,
        event_type is RoomThirdPartyInvite ==> r@ == "m.room.third_party_invite"@,
        event_type is RoomTombstone ==> r@ == "m.room.topic"@,
        event_type is RoomTopic ==> r@ == "m.room.topic"@,
        event_type is SpaceChild ==> r@ == "m.space.child"@,
        event_type is SpaceParent ==> r@ == "m.space.parent"@,
{
}

/// Message-like events are chosen by these names.
pub proof fn message_like_types_are_chosen_by_name(
    event_type: FilterMessageLikeEventType,
    r: &'static str,
)
    requires
        call_ensures(FilterMessageLikeEventType::event_type, (&event_type,), r),
    ensures
        event_type is CallAnswer ==> r@ == "m.call.answer"@,
        event_type is CallInvite ==> r@ == "m.call.invite"@,
        event_type is CallHangup ==> r@ == "m.call.hangup"@,
        event_type is CallCandidates ==> r@ == "m.call.candidates"@,
        event_type is KeyVerificationReady ==> r@ == "m.key.verification.ready"@,
        event_type is KeyVerificationStart ==> r@ == "m.key.verification.start"@,
        event_type is KeyVerificationCancel ==> r@ == "m.key.verification.cancel"@,
        event_type is KeyVerificationAccept ==> r@ == "m.key.verification.accept"@,
        event_type is KeyVerificationKey ==> r@ == "m.key.verification.key"@,
        event_type is KeyVerificationMac ==> r@ == "m.key.verification.mac"@,
        event_type is KeyVerificationDone ==> r@ == "m.key.verification.done"@,
        event_type is Poll ==> r@ == "m.policy.rule.user"@,
        event_type is Reaction ==> r@ == "m.reaction"@,
        event_type is RoomEncrypted ==> r@ == "m.room.encrypted"@,
        event_type is RoomMessage ==> r@ == "m.room.message"@,
        event_type is RoomRedaction ==> r@ == "m.room.redaction"@,
        event_type is Sticker ==> r@ == "m.sticker"@,
{
}

/// An event whose type is among the chosen ones passes where those are shown and does not where
/// they are hidden; with nothing chosen, nothing passes, or all.
pub proof fn chosen_types_pass(
    types: Vec<FilterTimelineEventType>,
    i: int,
    name: &'static str,
    text: &str,
    shown: bool,
    hidden: bool,
)
    requires
        0 <= i < types@.len() ==> call_ensures(
            FilterTimelineEventType::event_type,
            (&types@[i],),
            name,
        ),
        call_ensures(
            TimelineEventTypeFilter::filter,
            (&TimelineEventTypeFilter::Include { event_types: types }, text),
            shown,
        ),
        call_ensures(
            TimelineEventTypeFilter::filter,
            (&TimelineEventTypeFilter::Exclude { event_types: types }, text),
            hidden,
        ),
    ensures
        shown <==> !hidden,
        0 <= i < types@.len() && name@ == canonical_timeline_type(text@) ==> shown,
        types@.len() == 0 ==> !shown,
        types@.len() == 1 && i == 0 && name@ != canonical_timeline_type(text@) ==> !shown,
{
    let wanted = canonical_timeline_type(text@);
    if 0 <= i < types@.len() && name@ == wanted {
        assert(filter_name(types@[i]) == wanted);
        assert(is_named(types@, wanted));
    }
    if types@.len() == 1 && i == 0 && is_named(types@, wanted) {
        let k = choose|k: int| 0 <= k < types@.len() && filter_name(#[trigger] types@[k]) == wanted;
        assert(k == 0);
    }
}

} // verus!
