//! Timeline events: their types, and what of their content is shown.

use ruma::events::{
    rtc::notification::{NotificationType, RtcNotificationEventContent},
    MessageLikeEventType as RumaMessageLikeEventType, StateEventType as RumaStateEventType,
    TimelineEventType as RumaTimelineEventType,
};
use ruma::{MilliSecondsSinceUnixEpoch, UInt};
use vstd::prelude::*;

use crate::error::ClientError;
use crate::ids::{
    check_event_id, event_id_refusal, id_checked, is_safe_int, parse_event_id, IdParseError,
    MAX_SAFE_INT,
};
use crate::room_member::{membership_of, MembershipState};
use crate::text::{concat2, debug_text, debug_text_of, same};

verus! {

/// The timeline event type.
#[derive(Clone, Debug, PartialEq, Eq, Hash)]
pub enum TimelineEventType {
    /// The event is a message-like one and should be displayed as such.
    MessageLike { value: MessageLikeEventType },
    /// The event is a state event, and may or may not be displayed in the
    /// timeline.
    State { value: StateEventType },
}

/// The type of a state event.
#[derive(Clone, Debug, PartialEq, Eq, Hash)]
pub enum StateEventType {
    BeaconInfo,
    CallMember,
    MemberHints,
    PolicyRuleRoom,
    PolicyRuleServer,
    PolicyRuleUser,
    RoomAliases,
    RoomAvatar,
    RoomCanonicalAlias,
    RoomCreate,
    RoomEncryption,
    RoomGuestAccess,
    RoomHistoryVisibility,
    RoomImagePack,
    RoomJoinRules,
    RoomLanguage,
    RoomMemberEvent,
    RoomName,
    RoomPinnedEvents,
    RoomPowerLevels,
    RoomServerAcl,
    RoomThirdPartyInvite,
    RoomTombstone,
    RoomTopic,
    SpaceChild,
    SpaceParent,
    Custom { value: String },
}

/// The type of a message-like event.
#[derive(Clone, Debug, PartialEq, Eq, Hash)]
pub enum MessageLikeEventType {
    Audio,
    Beacon,
    CallAnswer,
    CallCandidates,
    CallHangup,
    CallInvite,
    CallNegotiate,
    CallNotify,
    CallReject,
    CallSdpStreamMetadataChanged,
    CallSelectAnswer,
    Emote,
    Encrypted,
    File,
    Image,
    KeyVerificationAccept,
    KeyVerificationCancel,
    KeyVerificationDone,
    KeyVerificationKey,
    KeyVerificationMac,
    KeyVerificationReady,
    KeyVerificationStart,
    Location,
    Message,
    PollEnd,
    PollResponse,
    PollStart,
    Reaction,
    RoomEncrypted,
    RoomMessage,
    RoomRedaction,
    RtcDecline,
    RtcNotification,
    Sticker,
    UnstablePollEnd,
    UnstablePollResponse,
    UnstablePollStart,
    Video,
    Voice,
    Other(String),
}

/// The `type` that message-like events of the given type are written with; for
/// other types, the text that was given.
pub open spec fn message_like_name(event_type: MessageLikeEventType) -> Seq<char> {
    match event_type {
        MessageLikeEventType::Audio => "org.matrix.msc1767.audio"@,
        MessageLikeEventType::File => "org.matrix.msc1767.file"@,
        MessageLikeEventType::Image => "org.matrix.msc1767.image"@,
        MessageLikeEventType::Video => "org.matrix.msc1767.video"@,
        MessageLikeEventType::Voice => "org.matrix.msc3245.voice.v2"@,
        MessageLikeEventType::Emote => "org.matrix.msc1767.emote"@,
        MessageLikeEventType::Encrypted => "org.matrix.msc1767.encrypted"@,
        MessageLikeEventType::RoomMessage => "m.room.message"@,
        MessageLikeEventType::CallAnswer => "m.call.answer"@,
        MessageLikeEventType::CallInvite => "m.call.invite"@,
        MessageLikeEventType::CallHangup => "m.call.hangup"@,
        MessageLikeEventType::CallCandidates => "m.call.candidates"@,
        MessageLikeEventType::CallNegotiate => "m.call.negotiate"@,
        MessageLikeEventType::CallReject => "m.call.reject"@,
        MessageLikeEventType::CallSdpStreamMetadataChanged => "m.call.sdp_stream_metadata_changed"@,
        MessageLikeEventType::CallSelectAnswer => "m.call.select_answer"@,
        MessageLikeEventType::KeyVerificationReady => "m.key.verification.ready"@,
        MessageLikeEventType::KeyVerificationStart => "m.key.verification.start"@,
        MessageLikeEventType::KeyVerificationCancel => "m.key.verification.cancel"@,
        MessageLikeEventType::KeyVerificationAccept => "m.key.verification.accept"@,
        MessageLikeEventType::KeyVerificationKey => "m.key.verification.key"@,
        MessageLikeEventType::KeyVerificationMac => "m.key.verification.mac"@,
        MessageLikeEventType::KeyVerificationDone => "m.key.verification.done"@,
        MessageLikeEventType::Location => "m.location"@,
        MessageLikeEventType::Message => "org.matrix.msc1767.message"@,
        MessageLikeEventType::PollStart => "m.poll.start"@,
        MessageLikeEventType::UnstablePollStart => "org.matrix.msc3381.poll.start"@,
        MessageLikeEventType::PollResponse => "m.poll.response"@,
        MessageLikeEventType::UnstablePollResponse => "org.matrix.msc3381.poll.response"@,
        MessageLikeEventType::PollEnd => "m.poll.end"@,
        MessageLikeEventType::UnstablePollEnd => "org.matrix.msc3381.poll.end"@,
        MessageLikeEventType::Beacon => "org.matrix.msc3672.beacon"@,
        MessageLikeEventType::Reaction => "m.reaction"@,
        MessageLikeEventType::RoomEncrypted => "m.room.encrypted"@,
        MessageLikeEventType::RoomRedaction => "m.room.redaction"@,
        MessageLikeEventType::Sticker => "m.sticker"@,
        MessageLikeEventType::CallNotify => "org.matrix.msc4075.call.notify"@,
        MessageLikeEventType::RtcNotification => "org.matrix.msc4075.rtc.notification"@,
        MessageLikeEventType::RtcDecline => "org.matrix.msc4310.rtc.decline"@,
        MessageLikeEventType::Other(name) => name@,
    }
}

/// The `type` that state events of the given type are written with; for custom
/// types, the text that was given.
pub open spec fn state_name(event_type: StateEventType) -> Seq<char> {
    match event_type {
        StateEventType::PolicyRuleRoom => "m.policy.rule.room"@,
        StateEventType::PolicyRuleServer => "m.policy.rule.server"@,
        StateEventType::PolicyRuleUser => "m.policy.rule.user"@,
        StateEventType::RoomAliases => "m.room.aliases"@,
        StateEventType::RoomAvatar => "m.room.avatar"@,
        StateEventType::RoomCanonicalAlias => "m.room.canonical_alias"@,
        StateEventType::RoomCreate => "m.room.create"@,
        StateEventType::RoomEncryption => "m.room.encryption"@,
        StateEventType::RoomGuestAccess => "m.room.guest_access"@,
        StateEventType::RoomHistoryVisibility => "m.room.history_visibility"@,
        StateEventType::RoomJoinRules => "m.room.join_rules"@,
        StateEventType::RoomMemberEvent => "m.room.member"@,
        StateEventType::RoomLanguage => "org.matrix.msc4334.room.language"@,
        StateEventType::RoomName => "m.room.name"@,
        StateEventType::RoomImagePack => "im.ponies.room_emotes"@,
        StateEventType::RoomPinnedEvents => "m.room.pinned_events"@,
        StateEventType::RoomPowerLevels => "m.room.power_levels"@,
        StateEventType::RoomServerAcl => "m.room.server_acl"@,
        StateEventType::RoomThirdPartyInvite => "m.room.third_party_invite"@,
        StateEventType::RoomTombstone => "m.room.tombstone"@,
        StateEventType::RoomTopic => "m.room.topic"@,
        StateEventType::SpaceChild => "m.space.child"@,
        StateEventType::SpaceParent => "m.space.parent"@,
        StateEventType::BeaconInfo => "org.matrix.msc3672.beacon_info"@,
        StateEventType::CallMember => "org.matrix.msc3401.call.member"@,
        StateEventType::MemberHints => "io.element.functional_members"@,
        StateEventType::Custom { value } => value@,
    }
}

/// The type of the events that are written with the given `type`. `known` says
/// whether the Matrix types know it: where it is none of the types here, an
/// unknown one is taken for a custom state event, a known one for a
/// message-like event.
pub open spec fn timeline_event_type_of(canonical: String, known: bool) -> TimelineEventType {
    let name = canonical@;
    if name == "org.matrix.msc1767.audio"@ {
        TimelineEventType::MessageLike { value: MessageLikeEventType::Audio }
    } else if name == "org.matrix.msc1767.file"@ {
        TimelineEventType::MessageLike { value: MessageLikeEventType::File }
    } else if name == "org.matrix.msc1767.image"@ {
        TimelineEventType::MessageLike { value: MessageLikeEventType::Image }
    } else if name == "org.matrix.msc1767.video"@ {
        TimelineEventType::MessageLike { value: MessageLikeEventType::Video }
    } else if name == "org.matrix.msc3245.voice.v2"@ {
        TimelineEventType::MessageLike { value: MessageLikeEventType::Voice }
    } else if name == "org.matrix.msc1767.emote"@ {
        TimelineEventType::MessageLike { value: MessageLikeEventType::Emote }
    } else if name == "org.matrix.msc1767.encrypted"@ {
        TimelineEventType::MessageLike { value: MessageLikeEventType::Encrypted }
    } else if name == "m.room.message"@ {
        TimelineEventType::MessageLike { value: MessageLikeEventType::RoomMessage }
    } else if name == "m.call.answer"@ {
        TimelineEventType::MessageLike { value: MessageLikeEventType::CallAnswer }
    } else if name == "m.call.invite"@ {
        TimelineEventType::MessageLike { value: MessageLikeEventType::CallInvite }
    } else if name == "m.call.hangup"@ {
        TimelineEventType::MessageLike { value: MessageLikeEventType::CallHangup }
    } else if name == "m.call.candidates"@ {
        TimelineEventType::MessageLike { value: MessageLikeEventType::CallCandidates }
    } else if name == "m.call.negotiate"@ {
        TimelineEventType::MessageLike { value: MessageLikeEventType::CallNegotiate }
    } else if name == "m.call.reject"@ {
        TimelineEventType::MessageLike { value: MessageLikeEventType::CallReject }
    } else if name == "m.call.sdp_stream_metadata_changed"@ {
        TimelineEventType::MessageLike { value: MessageLikeEventType::CallSdpStreamMetadataChanged }
    } else if name == "m.call.select_answer"@ {
        TimelineEventType::MessageLike { value: MessageLikeEventType::CallSelectAnswer }
    } else if name == "m.key.verification.ready"@ {
        TimelineEventType::MessageLike { value: MessageLikeEventType::KeyVerificationReady }
    } else if name == "m.key.verification.start"@ {
        TimelineEventType::MessageLike { value: MessageLikeEventType::KeyVerificationStart }
    } else if name == "m.key.verification.cancel"@ {
        TimelineEventType::MessageLike { value: MessageLikeEventType::KeyVerificationCancel }
    } else if name == "m.key.verification.accept"@ {
        TimelineEventType::MessageLike { value: MessageLikeEventType::KeyVerificationAccept }
    } else if name == "m.key.verification.key"@ {
        TimelineEventType::MessageLike { value: MessageLikeEventType::KeyVerificationKey }
    } else if name == "m.key.verification.mac"@ {
        TimelineEventType::MessageLike { value: MessageLikeEventType::KeyVerificationMac }
    } else if name == "m.key.verification.done"@ {
        TimelineEventType::MessageLike { value: MessageLikeEventType::KeyVerificationDone }
    } else if name == "m.location"@ {
        TimelineEventType::MessageLike { value: MessageLikeEventType::Location }
    } else if name == "org.matrix.msc1767.message"@ {
        TimelineEventType::MessageLike { value: MessageLikeEventType::Message }
    } else if name == "m.poll.start"@ {
        TimelineEventType::MessageLike { value: MessageLikeEventType::PollStart }
    } else if name == "org.matrix.msc3381.poll.start"@ {
        TimelineEventType::MessageLike { value: MessageLikeEventType::UnstablePollStart }
    } else if name == "m.poll.response"@ {
        TimelineEventType::MessageLike { value: MessageLikeEventType::PollResponse }
    } else if name == "org.matrix.msc3381.poll.response"@ {
        TimelineEventType::MessageLike { value: MessageLikeEventType::UnstablePollResponse }
    } else if name == "m.poll.end"@ {
        TimelineEventType::MessageLike { value: MessageLikeEventType::PollEnd }
    } else if name == "org.matrix.msc3381.poll.end"@ {
        TimelineEventType::MessageLike { value: MessageLikeEventType::UnstablePollEnd }
    } else if name == "org.matrix.msc3672.beacon"@ {
        TimelineEventType::MessageLike { value: MessageLikeEventType::Beacon }
    } else if name == "m.reaction"@ {
        TimelineEventType::MessageLike { value: MessageLikeEventType::Reaction }
    } else if name == "m.room.encrypted"@ {
        TimelineEventType::MessageLike { value: MessageLikeEventType::RoomEncrypted }
    } else if name == "m.room.redaction"@ {
        TimelineEventType::MessageLike { value: MessageLikeEventType::RoomRedaction }
    } else if name == "m.sticker"@ {
        TimelineEventType::MessageLike { value: MessageLikeEventType::Sticker }
    } else if name == "org.matrix.msc4075.call.notify"@ {
        TimelineEventType::MessageLike { value: MessageLikeEventType::CallNotify }
    } else if name == "org.matrix.msc4075.rtc.notification"@ {
        TimelineEventType::MessageLike { value: MessageLikeEventType::RtcNotification }
    } else if name == "org.matrix.msc4310.rtc.decline"@ {
        TimelineEventType::MessageLike { value: MessageLikeEventType::RtcDecline }
    } else if name == "m.policy.rule.room"@ {
        TimelineEventType::State { value: StateEventType::PolicyRuleRoom }
    } else if name == "m.policy.rule.server"@ {
        TimelineEventType::State { value: StateEventType::PolicyRuleServer }
    } else if name == "m.policy.rule.user"@ {
        TimelineEventType::State { value: StateEventType::PolicyRuleUser }
    } else if name == "m.room.aliases"@ {
        TimelineEventType::State { value: StateEventType::RoomAliases }
    } else if name == "m.room.avatar"@ {
        TimelineEventType::State { value: StateEventType::RoomAvatar }
    } else if name == "m.room.canonical_alias"@ {
        TimelineEventType::State { value: StateEventType::RoomCanonicalAlias }
    } else if name == "m.room.create"@ {
        TimelineEventType::State { value: StateEventType::RoomCreate }
    } else if name == "m.room.encryption"@ {
        TimelineEventType::State { value: StateEventType::RoomEncryption }
    } else if name == "m.room.guest_access"@ {
        TimelineEventType::State { value: StateEventType::RoomGuestAccess }
    } else if name == "m.room.history_visibility"@ {
        TimelineEventType::State { value: StateEventType::RoomHistoryVisibility }
    } else if name == "m.room.join_rules"@ {
        TimelineEventType::State { value: StateEventType::RoomJoinRules }
    } else if name == "m.room.member"@ {
        TimelineEventType::State { value: StateEventType::RoomMemberEvent }
    } else if name == "org.matrix.msc4334.room.language"@ {
        TimelineEventType::State { value: StateEventType::RoomLanguage }
    } else if name == "m.room.name"@ {
        TimelineEventType::State { value: StateEventType::RoomName }
    } else if name == "im.ponies.room_emotes"@ {
        TimelineEventType::State { value: StateEventType::RoomImagePack }
    } else if name == "m.room.pinned_events"@ {
        TimelineEventType::State { value: StateEventType::RoomPinnedEvents }
    } else if name == "m.room.power_levels"@ {
        TimelineEventType::State { value: StateEventType::RoomPowerLevels }
    } else if name == "m.room.server_acl"@ {
        TimelineEventType::State { value: StateEventType::RoomServerAcl }
    } else if name == "m.room.third_party_invite"@ {
        TimelineEventType::State { value: StateEventType::RoomThirdPartyInvite }
    } else if name == "m.room.tombstone"@ {
        TimelineEventType::State { value: StateEventType::RoomTombstone }
    } else if name == "m.room.topic"@ {
        TimelineEventType::State { value: StateEventType::RoomTopic }
    } else if name == "m.space.child"@ {
        TimelineEventType::State { value: StateEventType::SpaceChild }
    } else if name == "m.space.parent"@ {
        TimelineEventType::State { value: StateEventType::SpaceParent }
    } else if name == "org.matrix.msc3672.beacon_info"@ {
        TimelineEventType::State { value: StateEventType::BeaconInfo }
    } else if name == "org.matrix.msc3401.call.member"@ {
        TimelineEventType::State { value: StateEventType::CallMember }
    } else if name == "io.element.functional_members"@ {
        TimelineEventType::State { value: StateEventType::MemberHints }
    } else if !known {
        TimelineEventType::State { value: StateEventType::Custom { value: canonical } }
    } else {
        TimelineEventType::MessageLike { value: MessageLikeEventType::Other(canonical) }
    }
}

/// The `type` that events are written with, for any of the names of their
/// type.
pub uninterp spec fn canonical_timeline_type(event_type: Seq<char>) -> Seq<char>;

/// Whether the Matrix types know the type.
pub uninterp spec fn timeline_type_is_known(event_type: Seq<char>) -> bool;

/// The `type` that message-like events are written with, for any of the names
/// of their type.
pub uninterp spec fn canonical_message_like_type(event_type: Seq<char>) -> Seq<char>;

/// The `type` that state events are written with, for any of the names of
/// their type.
pub uninterp spec fn canonical_state_type(event_type: Seq<char>) -> Seq<char>;

/// The text of `ruma::events::TimelineEventType::from`. Claimed: it depends on
/// the given text alone; a type that is not known keeps its text; and what comes out
/// is the text of the type among the message-like and among the state types as well.
#[verifier::external_body]
pub(crate) fn canonical_type(event_type: &str) -> (r: String)
    ensures
        r@ == canonical_timeline_type(event_type@),
        !timeline_type_is_known(event_type@) ==> r@ == event_type@,
        canonical_message_like_type(r@) == r@,
        canonical_state_type(r@) == r@,
{
    RumaTimelineEventType::from(event_type).to_string()
}

/// Whether `ruma::events::TimelineEventType::from` gives a variant of its own
/// for the type, and not the one that holds custom types. Claimed: the answer
/// depends on the given text alone.
#[verifier::external_body]
fn is_known_type(event_type: &str) -> (r: bool)
    ensures
        r == timeline_type_is_known(event_type@),
{
    !matches!(RumaTimelineEventType::from(event_type), RumaTimelineEventType::_Custom(_))
}

/// The text of `ruma::events::MessageLikeEventType::from`. Claimed: it depends
/// on the given text alone, and a type that is not known keeps its text.
#[verifier::external_body]
fn canonical_message_like(event_type: &str) -> (r: String)
    ensures
        r@ == canonical_message_like_type(event_type@),
        !timeline_type_is_known(event_type@) ==> r@ == event_type@,
{
    RumaMessageLikeEventType::from(event_type).to_string()
}

/// The text of `ruma::events::StateEventType::from`. Claimed: it depends on
/// the given text alone, and a type that is not known keeps its text.
#[verifier::external_body]
fn canonical_state(event_type: &str) -> (r: String)
    ensures
        r@ == canonical_state_type(event_type@),
        !timeline_type_is_known(event_type@) ==> r@ == event_type@,
{
    RumaStateEventType::from(event_type).to_string()
}

impl TimelineEventType {
    /// The type of the events with the given `type`. Events of that type are written
    /// with the same `type` again, whichever of its names was given, and custom types
    /// among them.
    pub fn from(event_type: &str) -> (r: Self)
        ensures
            match r {
                TimelineEventType::MessageLike { value } => value.event_type()
                    == canonical_timeline_type(event_type@),
                TimelineEventType::State { value } => value.event_type()
                    == canonical_timeline_type(event_type@),
            },
            !timeline_type_is_known(event_type@) ==> canonical_timeline_type(event_type@)
                == event_type@,
            exists|canonical: String|
                canonical@ == canonical_timeline_type(event_type@) && r
                    == #[trigger] timeline_event_type_of(
                    canonical,
                    timeline_type_is_known(event_type@),
                ),
    {
        let canonical: String = canonical_type(event_type);
        let known: bool = is_known_type(event_type);
        proof {
            type_keeps_its_name(canonical, known);
        }
        Self::from_canonical(canonical, known)
    }

    /// The type of the events that are written with the given `type`, where
    /// `known` says whether the Matrix types know it.
    #[verifier::rlimit(60)]
    pub fn from_canonical(canonical: String, known: bool) -> (r: Self)
        ensures
            r == timeline_event_type_of(canonical, known),
    {
        if same(canonical.as_str(), "org.matrix.msc1767.audio") {
            TimelineEventType::MessageLike { value: MessageLikeEventType::Audio }
        } else if same(canonical.as_str(), "org.matrix.msc1767.file") {
            TimelineEventType::MessageLike { value: MessageLikeEventType::File }
        } else if same(canonical.as_str(), "org.matrix.msc1767.image") {
            TimelineEventType::MessageLike { value: MessageLikeEventType::Image }
        } else if same(canonical.as_str(), "org.matrix.msc1767.video") {
            TimelineEventType::MessageLike { value: MessageLikeEventType::Video }
        } else if same(canonical.as_str(), "org.matrix.msc3245.voice.v2") {
            TimelineEventType::MessageLike { value: MessageLikeEventType::Voice }
        } else if same(canonical.as_str(), "org.matrix.msc1767.emote") {
            TimelineEventType::MessageLike { value: MessageLikeEventType::Emote }
        } else if same(canonical.as_str(), "org.matrix.msc1767.encrypted") {
            TimelineEventType::MessageLike { value: MessageLikeEventType::Encrypted }
        } else if same(canonical.as_str(), "m.room.message") {
            TimelineEventType::MessageLike { value: MessageLikeEventType::RoomMessage }
        } else if same(canonical.as_str(), "m.call.answer") {
            TimelineEventType::MessageLike { value: MessageLikeEventType::CallAnswer }
        } else if same(canonical.as_str(), "m.call.invite") {
            TimelineEventType::MessageLike { value: MessageLikeEventType::CallInvite }
        } else if same(canonical.as_str(), "m.call.hangup") {
            TimelineEventType::MessageLike { value: MessageLikeEventType::CallHangup }
        } else if same(canonical.as_str(), "m.call.candidates") {
            TimelineEventType::MessageLike { value: MessageLikeEventType::CallCandidates }
        } else if same(canonical.as_str(), "m.call.negotiate") {
            TimelineEventType::MessageLike { value: MessageLikeEventType::CallNegotiate }
        } else if same(canonical.as_str(), "m.call.reject") {
            TimelineEventType::MessageLike { value: MessageLikeEventType::CallReject }
        } else if same(canonical.as_str(), "m.call.sdp_stream_metadata_changed") {
            TimelineEventType::MessageLike { value: MessageLikeEventType::CallSdpStreamMetadataChanged }
        } else if same(canonical.as_str(), "m.call.select_answer") {
            TimelineEventType::MessageLike { value: MessageLikeEventType::CallSelectAnswer }
        } else if same(canonical.as_str(), "m.key.verification.ready") {
            TimelineEventType::MessageLike { value: MessageLikeEventType::KeyVerificationReady }
        } else if same(canonical.as_str(), "m.key.verification.start") {
            TimelineEventType::MessageLike { value: MessageLikeEventType::KeyVerificationStart }
        } else if same(canonical.as_str(), "m.key.verification.cancel") {
            TimelineEventType::MessageLike { value: MessageLikeEventType::KeyVerificationCancel }
        } else if same(canonical.as_str(), "m.key.verification.accept") {
            TimelineEventType::MessageLike { value: MessageLikeEventType::KeyVerificationAccept }
        } else if same(canonical.as_str(), "m.key.verification.key") {
            TimelineEventType::MessageLike { value: MessageLikeEventType::KeyVerificationKey }
        } else if same(canonical.as_str(), "m.key.verification.mac") {
            TimelineEventType::MessageLike { value: MessageLikeEventType::KeyVerificationMac }
        } else if same(canonical.as_str(), "m.key.verification.done") {
            TimelineEventType::MessageLike { value: MessageLikeEventType::KeyVerificationDone }
        } else if same(canonical.as_str(), "m.location") {
            TimelineEventType::MessageLike { value: MessageLikeEventType::Location }
        } else if same(canonical.as_str(), "org.matrix.msc1767.message") {
            TimelineEventType::MessageLike { value: MessageLikeEventType::Message }
        } else if same(canonical.as_str(), "m.poll.start") {
            TimelineEventType::MessageLike { value: MessageLikeEventType::PollStart }
        } else if same(canonical.as_str(), "org.matrix.msc3381.poll.start") {
            TimelineEventType::MessageLike { value: MessageLikeEventType::UnstablePollStart }
        } else if same(canonical.as_str(), "m.poll.response") {
            TimelineEventType::MessageLike { value: MessageLikeEventType::PollResponse }
        } else if same(canonical.as_str(), "org.matrix.msc3381.poll.response") {
            TimelineEventType::MessageLike { value: MessageLikeEventType::UnstablePollResponse }
        } else if same(canonical.as_str(), "m.poll.end") {
            TimelineEventType::MessageLike { value: MessageLikeEventType::PollEnd }
        } else if same(canonical.as_str(), "org.matrix.msc3381.poll.end") {
            TimelineEventType::MessageLike { value: MessageLikeEventType::UnstablePollEnd }
        } else if same(canonical.as_str(), "org.matrix.msc3672.beacon") {
            TimelineEventType::MessageLike { value: MessageLikeEventType::Beacon }
        } else if same(canonical.as_str(), "m.reaction") {
            TimelineEventType::MessageLike { value: MessageLikeEventType::Reaction }
        } else if same(canonical.as_str(), "m.room.encrypted") {
            TimelineEventType::MessageLike { value: MessageLikeEventType::RoomEncrypted }
        } else if same(canonical.as_str(), "m.room.redaction") {
            TimelineEventType::MessageLike { value: MessageLikeEventType::RoomRedaction }
        } else if same(canonical.as_str(), "m.sticker") {
            TimelineEventType::MessageLike { value: MessageLikeEventType::Sticker }
        } else if same(canonical.as_str(), "org.matrix.msc4075.call.notify") {
            TimelineEventType::MessageLike { value: MessageLikeEventType::CallNotify }
        } else if same(canonical.as_str(), "org.matrix.msc4075.rtc.notification") {
            TimelineEventType::MessageLike { value: MessageLikeEventType::RtcNotification }
        } else if same(canonical.as_str(), "org.matrix.msc4310.rtc.decline") {
            TimelineEventType::MessageLike { value: MessageLikeEventType::RtcDecline }
        } else if same(canonical.as_str(), "m.policy.rule.room") {
            TimelineEventType::State { value: StateEventType::PolicyRuleRoom }
        } else if same(canonical.as_str(), "m.policy.rule.server") {
            TimelineEventType::State { value: StateEventType::PolicyRuleServer }
        } else if same(canonical.as_str(), "m.policy.rule.user") {
            TimelineEventType::State { value: StateEventType::PolicyRuleUser }
        } else if same(canonical.as_str(), "m.room.aliases") {
            TimelineEventType::State { value: StateEventType::RoomAliases }
        } else if same(canonical.as_str(), "m.room.avatar") {
            TimelineEventType::State { value: StateEventType::RoomAvatar }
        } else if same(canonical.as_str(), "m.room.canonical_alias") {
            TimelineEventType::State { value: StateEventType::RoomCanonicalAlias }
        } else if same(canonical.as_str(), "m.room.create") {
            TimelineEventType::State { value: StateEventType::RoomCreate }
        } else if same(canonical.as_str(), "m.room.encryption") {
            TimelineEventType::State { value: StateEventType::RoomEncryption }
        } else if same(canonical.as_str(), "m.room.guest_access") {
            TimelineEventType::State { value: StateEventType::RoomGuestAccess }
        } else if same(canonical.as_str(), "m.room.history_visibility") {
            TimelineEventType::State { value: StateEventType::RoomHistoryVisibility }
        } else if same(canonical.as_str(), "m.room.join_rules") {
            TimelineEventType::State { value: StateEventType::RoomJoinRules }
        } else if same(canonical.as_str(), "m.room.member") {
            TimelineEventType::State { value: StateEventType::RoomMemberEvent }
        } else if same(canonical.as_str(), "org.matrix.msc4334.room.language") {
            TimelineEventType::State { value: StateEventType::RoomLanguage }
        } else if same(canonical.as_str(), "m.room.name") {
            TimelineEventType::State { value: StateEventType::RoomName }
        } else if same(canonical.as_str(), "im.ponies.room_emotes") {
            TimelineEventType::State { value: StateEventType::RoomImagePack }
        } else if same(canonical.as_str(), "m.room.pinned_events") {
            TimelineEventType::State { value: StateEventType::RoomPinnedEvents }
        } else if same(canonical.as_str(), "m.room.power_levels") {
            TimelineEventType::State { value: StateEventType::RoomPowerLevels }
        } else if same(canonical.as_str(), "m.room.server_acl") {
            TimelineEventType::State { value: StateEventType::RoomServerAcl }
        } else if same(canonical.as_str(), "m.room.third_party_invite") {
            TimelineEventType::State { value: StateEventType::RoomThirdPartyInvite }
        } else if same(canonical.as_str(), "m.room.tombstone") {
            TimelineEventType::State { value: StateEventType::RoomTombstone }
        } else if same(canonical.as_str(), "m.room.topic") {
            TimelineEventType::State { value: StateEventType::RoomTopic }
        } else if same(canonical.as_str(), "m.space.child") {
            TimelineEventType::State { value: StateEventType::SpaceChild }
        } else if same(canonical.as_str(), "m.space.parent") {
            TimelineEventType::State { value: StateEventType::SpaceParent }
        } else if same(canonical.as_str(), "org.matrix.msc3672.beacon_info") {
            TimelineEventType::State { value: StateEventType::BeaconInfo }
        } else if same(canonical.as_str(), "org.matrix.msc3401.call.member") {
            TimelineEventType::State { value: StateEventType::CallMember }
        } else if same(canonical.as_str(), "io.element.functional_members") {
            TimelineEventType::State { value: StateEventType::MemberHints }
        } else if !known {
            TimelineEventType::State { value: StateEventType::Custom { value: canonical } }
        } else {
            TimelineEventType::MessageLike { value: MessageLikeEventType::Other(canonical) }
        }
    }
}

impl StateEventType {
    /// The `type` that events of this type are written with.
    pub open spec fn event_type(self) -> Seq<char> {
        match self {
            StateEventType::Custom { value } => canonical_state_type(value@),
            _ => state_name(self),
        }
    }

    /// The `type` that events of this type are written with.
    pub fn into_event_type(self) -> (r: String)
        ensures
            r@ == self.event_type(),
    {
        match self {
            StateEventType::PolicyRuleRoom => "m.policy.rule.room".to_owned(),
            StateEventType::PolicyRuleServer => "m.policy.rule.server".to_owned(),
            StateEventType::PolicyRuleUser => "m.policy.rule.user".to_owned(),
            StateEventType::RoomAliases => "m.room.aliases".to_owned(),
            StateEventType::RoomAvatar => "m.room.avatar".to_owned(),
            StateEventType::RoomCanonicalAlias => "m.room.canonical_alias".to_owned(),
            StateEventType::RoomCreate => "m.room.create".to_owned(),
            StateEventType::RoomEncryption => "m.room.encryption".to_owned(),
            StateEventType::RoomGuestAccess => "m.room.guest_access".to_owned(),
            StateEventType::RoomHistoryVisibility => "m.room.history_visibility".to_owned(),
            StateEventType::RoomJoinRules => "m.room.join_rules".to_owned(),
            StateEventType::RoomMemberEvent => "m.room.member".to_owned(),
            StateEventType::RoomLanguage => "org.matrix.msc4334.room.language".to_owned(),
            StateEventType::RoomName => "m.room.name".to_owned(),
            StateEventType::RoomImagePack => "im.ponies.room_emotes".to_owned(),
            StateEventType::RoomPinnedEvents => "m.room.pinned_events".to_owned(),
            StateEventType::RoomPowerLevels => "m.room.power_levels".to_owned(),
            StateEventType::RoomServerAcl => "m.room.server_acl".to_owned(),
            StateEventType::RoomThirdPartyInvite => "m.room.third_party_invite".to_owned(),
            StateEventType::RoomTombstone => "m.room.tombstone".to_owned(),
            StateEventType::RoomTopic => "m.room.topic".to_owned(),
            StateEventType::SpaceChild => "m.space.child".to_owned(),
            StateEventType::SpaceParent => "m.space.parent".to_owned(),
            StateEventType::BeaconInfo => "org.matrix.msc3672.beacon_info".to_owned(),
            StateEventType::CallMember => "org.matrix.msc3401.call.member".to_owned(),
            StateEventType::MemberHints => "io.element.functional_members".to_owned(),
            StateEventType::Custom { value } => canonical_state(value.as_str()),
        }
    }
}

impl MessageLikeEventType {
    /// The `type` that events of this type are written with.
    pub open spec fn event_type(self) -> Seq<char> {
        match self {
            MessageLikeEventType::Other(name) => canonical_message_like_type(name@),
            _ => message_like_name(self),
        }
    }

    /// The `type` that events of this type are written with.
    pub fn into_event_type(self) -> (r: String)
        ensures
            r@ == self.event_type(),
    {
        match self {
            MessageLikeEventType::Audio => "org.matrix.msc1767.audio".to_owned(),
            MessageLikeEventType::File => "org.matrix.msc1767.file".to_owned(),
            MessageLikeEventType::Image => "org.matrix.msc1767.image".to_owned(),
            MessageLikeEventType::Video => "org.matrix.msc1767.video".to_owned(),
            MessageLikeEventType::Voice => "org.matrix.msc3245.voice.v2".to_owned(),
            MessageLikeEventType::Emote => "org.matrix.msc1767.emote".to_owned(),
            MessageLikeEventType::Encrypted => "org.matrix.msc1767.encrypted".to_owned(),
            MessageLikeEventType::RoomMessage => "m.room.message".to_owned(),
            MessageLikeEventType::CallAnswer => "m.call.answer".to_owned(),
            MessageLikeEventType::CallInvite => "m.call.invite".to_owned(),
            MessageLikeEventType::CallHangup => "m.call.hangup".to_owned(),
            MessageLikeEventType::CallCandidates => "m.call.candidates".to_owned(),
            MessageLikeEventType::CallNegotiate => "m.call.negotiate".to_owned(),
            MessageLikeEventType::CallReject => "m.call.reject".to_owned(),
            MessageLikeEventType::CallSdpStreamMetadataChanged => "m.call.sdp_stream_metadata_changed".to_owned(),
            MessageLikeEventType::CallSelectAnswer => "m.call.select_answer".to_owned(),
            MessageLikeEventType::KeyVerificationReady => "m.key.verification.ready".to_owned(),
            MessageLikeEventType::KeyVerificationStart => "m.key.verification.start".to_owned(),
            MessageLikeEventType::KeyVerificationCancel => "m.key.verification.cancel".to_owned(),
            MessageLikeEventType::KeyVerificationAccept => "m.key.verification.accept".to_owned(),
            MessageLikeEventType::KeyVerificationKey => "m.key.verification.key".to_owned(),
            MessageLikeEventType::KeyVerificationMac => "m.key.verification.mac".to_owned(),
            MessageLikeEventType::KeyVerificationDone => "m.key.verification.done".to_owned(),
            MessageLikeEventType::Location => "m.location".to_owned(),
            MessageLikeEventType::Message => "org.matrix.msc1767.message".to_owned(),
            MessageLikeEventType::PollStart => "m.poll.start".to_owned(),
            MessageLikeEventType::UnstablePollStart => "org.matrix.msc3381.poll.start".to_owned(),
            MessageLikeEventType::PollResponse => "m.poll.response".to_owned(),
            MessageLikeEventType::UnstablePollResponse => "org.matrix.msc3381.poll.response".to_owned(),
            MessageLikeEventType::PollEnd => "m.poll.end".to_owned(),
            MessageLikeEventType::UnstablePollEnd => "org.matrix.msc3381.poll.end".to_owned(),
            MessageLikeEventType::Beacon => "org.matrix.msc3672.beacon".to_owned(),
            MessageLikeEventType::Reaction => "m.reaction".to_owned(),
            MessageLikeEventType::RoomEncrypted => "m.room.encrypted".to_owned(),
            MessageLikeEventType::RoomRedaction => "m.room.redaction".to_owned(),
            MessageLikeEventType::Sticker => "m.sticker".to_owned(),
            MessageLikeEventType::CallNotify => "org.matrix.msc4075.call.notify".to_owned(),
            MessageLikeEventType::RtcNotification => "org.matrix.msc4075.rtc.notification".to_owned(),
            MessageLikeEventType::RtcDecline => "org.matrix.msc4310.rtc.decline".to_owned(),
            MessageLikeEventType::Other(name) => canonical_message_like(name.as_str()),
        }
    }
}

/// What tells the names of the types apart.
proof fn lemma_type_names()
    ensures
        "m.sticker"@.len() == 9,
        "m.location"@.len() == 10,
        "m.location"@[2] == 'l',
        "m.poll.end"@.len() == 10,
        "m.poll.end"@[2] == 'p',
        "m.reaction"@.len() == 10,
        "m.reaction"@[2] == 'r',
        "m.room.name"@.len() == 11,
        "m.poll.start"@.len() == 12,
        "m.poll.start"@[2] == 'p',
        "m.room.topic"@.len() == 12,
        "m.room.topic"@[2] == 'r',
        "m.call.answer"@.len() == 13,
        "m.call.answer"@[9] == 's',
        "m.call.invite"@.len() == 13,
        "m.call.invite"@[9] == 'v',
        "m.call.hangup"@.len() == 13,
        "m.call.hangup"@[9] == 'n',
        "m.call.reject"@.len() == 13,
        "m.call.reject"@[9] == 'j',
        "m.room.avatar"@.len() == 13,
        "m.room.avatar"@[9] == 'a',
        "m.room.create"@.len() == 13,
        "m.room.create"@[9] == 'e',
        "m.room.member"@.len() == 13,
        "m.room.member"@[9] == 'm',
        "m.space.child"@.len() == 13,
        "m.space.child"@[9] == 'h',
        "m.room.message"@.len() == 14,
        "m.room.message"@[7] == 'm',
        "m.room.aliases"@.len() == 14,
        "m.room.aliases"@[7] == 'a',
        "m.space.parent"@.len() == 14,
        "m.space.parent"@[7] == '.',
        "m.poll.response"@.len() == 15,
        "m.call.negotiate"@.len() == 16,
        "m.call.negotiate"@[7] == 'n',
        "m.room.encrypted"@.len() == 16,
        "m.room.encrypted"@[7] == 'e',
        "m.room.redaction"@.len() == 16,
        "m.room.redaction"@[7] == 'r',
        "m.room.tombstone"@.len() == 16,
        "m.room.tombstone"@[7] == 't',
        "m.call.candidates"@.len() == 17,
        "m.call.candidates"@[7] == 'c',
        "m.room.encryption"@.len() == 17,
        "m.room.encryption"@[7] == 'e',
        "m.room.join_rules"@.len() == 17,
        "m.room.join_rules"@[7] == 'j',
        "m.room.server_acl"@.len() == 17,
        "m.room.server_acl"@[7] == 's',
        "m.policy.rule.room"@.len() == 18,
        "m.policy.rule.room"@[14] == 'r',
        "m.policy.rule.user"@.len() == 18,
        "m.policy.rule.user"@[14] == 'u',
        "m.room.guest_access"@.len() == 19,
        "m.room.guest_access"@[7] == 'g',
        "m.room.power_levels"@.len() == 19,
        "m.room.power_levels"@[7] == 'p',
        "m.call.select_answer"@.len() == 20,
        "m.call.select_answer"@[2] == 'c',
        "m.policy.rule.server"@.len() == 20,
        "m.policy.rule.server"@[2] == 'p',
        "m.room.pinned_events"@.len() == 20,
        "m.room.pinned_events"@[2] == 'r',
        "im.ponies.room_emotes"@.len() == 21,
        "m.key.verification.key"@.len() == 22,
        "m.key.verification.key"@[19] == 'k',
        "m.key.verification.mac"@.len() == 22,
        "m.key.verification.mac"@[19] == 'm',
        "m.room.canonical_alias"@.len() == 22,
        "m.room.canonical_alias"@[19] == 'i',
        "org.matrix.msc1767.file"@.len() == 23,
        "org.matrix.msc1767.file"@[0] == 'o',
        "m.key.verification.done"@.len() == 23,
        "m.key.verification.done"@[0] == 'm',
        "org.matrix.msc1767.audio"@.len() == 24,
        "org.matrix.msc1767.audio"@[19] == 'a',
        "org.matrix.msc1767.image"@.len() == 24,
        "org.matrix.msc1767.image"@[19] == 'i',
        "org.matrix.msc1767.video"@.len() == 24,
        "org.matrix.msc1767.video"@[19] == 'v',
        "org.matrix.msc1767.emote"@.len() == 24,
        "org.matrix.msc1767.emote"@[19] == 'e',
        "m.key.verification.ready"@.len() == 24,
        "m.key.verification.ready"@[19] == 'r',
        "m.key.verification.start"@.len() == 24,
        "m.key.verification.start"@[19] == 's',
        "m.key.verification.cancel"@.len() == 25,
        "m.key.verification.cancel"@[20] == 'a',
        "m.key.verification.accept"@.len() == 25,
        "m.key.verification.accept"@[20] == 'c',
        "org.matrix.msc3672.beacon"@.len() == 25,
        "org.matrix.msc3672.beacon"@[20] == 'e',
        "m.room.history_visibility"@.len() == 25,
        "m.room.history_visibility"@[20] == 'i',
        "m.room.third_party_invite"@.len() == 25,
        "m.room.third_party_invite"@[20] == 'n',
        "org.matrix.msc1767.message"@.len() == 26,
        "org.matrix.msc3245.voice.v2"@.len() == 27,
        "org.matrix.msc3245.voice.v2"@[15] == '2',
        "org.matrix.msc3381.poll.end"@.len() == 27,
        "org.matrix.msc3381.poll.end"@[15] == '3',
        "org.matrix.msc1767.encrypted"@.len() == 28,
        "org.matrix.msc3381.poll.start"@.len() == 29,
        "org.matrix.msc3381.poll.start"@[0] == 'o',
        "io.element.functional_members"@.len() == 29,
        "io.element.functional_members"@[0] == 'i',
        "org.matrix.msc4075.call.notify"@.len() == 30,
        "org.matrix.msc4075.call.notify"@[15] == '0',
        "org.matrix.msc4310.rtc.decline"@.len() == 30,
        "org.matrix.msc4310.rtc.decline"@[15] == '3',
        "org.matrix.msc3672.beacon_info"@.len() == 30,
        "org.matrix.msc3672.beacon_info"@[15] == '6',
        "org.matrix.msc3401.call.member"@.len() == 30,
        "org.matrix.msc3401.call.member"@[15] == '4',
        "org.matrix.msc3381.poll.response"@.len() == 32,
        "org.matrix.msc3381.poll.response"@[14] == '3',
        "org.matrix.msc4334.room.language"@.len() == 32,
        "org.matrix.msc4334.room.language"@[14] == '4',
        "m.call.sdp_stream_metadata_changed"@.len() == 34,
        "org.matrix.msc4075.rtc.notification"@.len() == 35,
{
    reveal_strlit("org.matrix.msc1767.audio");
    reveal_strlit("org.matrix.msc1767.file");
    reveal_strlit("org.matrix.msc1767.image");
    reveal_strlit("org.matrix.msc1767.video");
    reveal_strlit("org.matrix.msc3245.voice.v2");
    reveal_strlit("org.matrix.msc1767.emote");
    reveal_strlit("org.matrix.msc1767.encrypted");
    reveal_strlit("m.room.message");
    reveal_strlit("m.call.answer");
    reveal_strlit("m.call.invite");
    reveal_strlit("m.call.hangup");
    reveal_strlit("m.call.candidates");
    reveal_strlit("m.call.negotiate");
    reveal_strlit("m.call.reject");
    reveal_strlit("m.call.sdp_stream_metadata_changed");
    reveal_strlit("m.call.select_answer");
    reveal_strlit("m.key.verification.ready");
    reveal_strlit("m.key.verification.start");
    reveal_strlit("m.key.verification.cancel");
    reveal_strlit("m.key.verification.accept");
    reveal_strlit("m.key.verification.key");
    reveal_strlit("m.key.verification.mac");
    reveal_strlit("m.key.verification.done");
    reveal_strlit("m.location");
    reveal_strlit("org.matrix.msc1767.message");
    reveal_strlit("m.poll.start");
    reveal_strlit("org.matrix.msc3381.poll.start");
    reveal_strlit("m.poll.response");
    reveal_strlit("org.matrix.msc3381.poll.response");
    reveal_strlit("m.poll.end");
    reveal_strlit("org.matrix.msc3381.poll.end");
    reveal_strlit("org.matrix.msc3672.beacon");
    reveal_strlit("m.reaction");
    reveal_strlit("m.room.encrypted");
    reveal_strlit("m.room.redaction");
    reveal_strlit("m.sticker");
    reveal_strlit("org.matrix.msc4075.call.notify");
    reveal_strlit("org.matrix.msc4075.rtc.notification");
    reveal_strlit("org.matrix.msc4310.rtc.decline");
    reveal_strlit("m.policy.rule.room");
    reveal_strlit("m.policy.rule.server");
    reveal_strlit("m.policy.rule.user");
    reveal_strlit("m.room.aliases");
    reveal_strlit("m.room.avatar");
    reveal_strlit("m.room.canonical_alias");
    reveal_strlit("m.room.create");
    reveal_strlit("m.room.encryption");
    reveal_strlit("m.room.guest_access");
    reveal_strlit("m.room.history_visibility");
    reveal_strlit("m.room.join_rules");
    reveal_strlit("m.room.member");
    reveal_strlit("org.matrix.msc4334.room.language");
    reveal_strlit("m.room.name");
    reveal_strlit("im.ponies.room_emotes");
    reveal_strlit("m.room.pinned_events");
    reveal_strlit("m.room.power_levels");
    reveal_strlit("m.room.server_acl");
    reveal_strlit("m.room.third_party_invite");
    reveal_strlit("m.room.tombstone");
    reveal_strlit("m.room.topic");
    reveal_strlit("m.space.child");
    reveal_strlit("m.space.parent");
    reveal_strlit("org.matrix.msc3672.beacon_info");
    reveal_strlit("org.matrix.msc3401.call.member");
    reveal_strlit("io.element.functional_members");
}

/// Every message-like type is the type of the events that are written with its
/// name.
#[verifier::spinoff_prover]
#[verifier::rlimit(100)]
pub proof fn message_like_type_round_trip(event_type: MessageLikeEventType, name: String, known: bool)
    requires
        !(event_type is Other),
        name@ == message_like_name(event_type),
    ensures
        timeline_event_type_of(name, known) == (TimelineEventType::MessageLike {
            value: event_type,
        }),
{
    lemma_type_names();
}

/// Every state type is the type of the events that are written with its name.
#[verifier::spinoff_prover]
#[verifier::rlimit(100)]
pub proof fn state_type_round_trip(event_type: StateEventType, name: String, known: bool)
    requires
        !(event_type is Custom),
        name@ == state_name(event_type),
    ensures
        timeline_event_type_of(name, known) == (TimelineEventType::State { value: event_type }),
{
    lemma_type_names();
}

/// No type is lost: whatever the `type` is, it can be read off what it is
/// taken for.
pub proof fn type_keeps_its_name(canonical: String, known: bool)
    ensures
        match timeline_event_type_of(canonical, known) {
            TimelineEventType::MessageLike { value } => message_like_name(value) == canonical@,
            TimelineEventType::State { value } => state_name(value) == canonical@,
        },
{
}

/// Why the content of an event cannot be shown.
pub enum ContentError {
    /// The event was redacted.
    Redacted,
    /// State events of this type are not shown.
    UnsupportedState { event_type: String },
    /// Message-like events of this type are not shown.
    UnsupportedMessageLike { event_type: String },
    /// The membership of a user is not one that is known.
    UnknownMembership,
    /// The type of a message could not be read.
    MessageType { message: String },
}

/// The text of the error.
pub open spec fn content_error_text(error: ContentError) -> Seq<char> {
    match error {
        ContentError::Redacted => "Failed to get original content"@,
        ContentError::UnsupportedState { event_type } => "Unsupported state event: "@
            + debug_text_of(event_type@),
        ContentError::UnsupportedMessageLike { event_type } => "Unsupported Event Type: "@
            + debug_text_of(event_type@),
        ContentError::UnknownMembership => "not implemented yet"@,
        ContentError::MessageType { message } => message@,
    }
}

impl ContentError {
    /// The text of the error.
    pub fn to_string(&self) -> (r: String)
        ensures
            r@ == content_error_text(*self),
    {
        match self {
            ContentError::Redacted => "Failed to get original content".to_owned(),
            ContentError::UnsupportedState { event_type } => concat2(
                "Unsupported state event: ",
                debug_text(event_type.as_str()).as_str(),
            ),
            ContentError::UnsupportedMessageLike { event_type } => concat2(
                "Unsupported Event Type: ",
                debug_text(event_type.as_str()).as_str(),
            ),
            ContentError::UnknownMembership => "not implemented yet".to_owned(),
            ContentError::MessageType { message } => message.clone(),
        }
    }
}

/// The content of a state event, as far as it is read. The parts of an event
/// that was redacted are missing.
pub enum SyncStateEvent {
    PolicyRuleRoom,
    PolicyRuleServer,
    PolicyRuleUser,
    RoomAliases,
    RoomAvatar,
    RoomCanonicalAlias,
    RoomCreate,
    RoomEncryption,
    RoomGuestAccess,
    RoomHistoryVisibility,
    RoomJoinRules,
    RoomName,
    RoomPinnedEvents,
    RoomPowerLevels,
    RoomServerAcl,
    RoomThirdPartyInvite,
    RoomTombstone,
    SpaceChild,
    SpaceParent,
    RoomMember { state_key: String, membership: Option<String> },
    RoomTopic { topic: Option<String> },
    /// Any other state event.
    Other { event_type: String },
}

/// What of a state event is shown.
pub enum StateEventContent {
    PolicyRuleRoom,
    PolicyRuleServer,
    PolicyRuleUser,
    RoomAliases,
    RoomAvatar,
    RoomCanonicalAlias,
    RoomCreate,
    RoomEncryption,
    RoomGuestAccess,
    RoomHistoryVisibility,
    RoomJoinRules,
    RoomName,
    RoomPinnedEvents,
    RoomPowerLevels,
    RoomServerAcl,
    RoomThirdPartyInvite,
    RoomTombstone,
    SpaceChild,
    SpaceParent,
    RoomMemberContent { user_id: String, membership_state: MembershipState },
    RoomTopic { topic: String },
}

/// What of a state event is shown, or why nothing is.
pub open spec fn state_content_of(event: SyncStateEvent) -> Result<StateEventContent, ContentError> {
    match event {
        SyncStateEvent::PolicyRuleRoom => Ok(StateEventContent::PolicyRuleRoom),
        SyncStateEvent::PolicyRuleServer => Ok(StateEventContent::PolicyRuleServer),
        SyncStateEvent::PolicyRuleUser => Ok(StateEventContent::PolicyRuleUser),
        SyncStateEvent::RoomAliases => Ok(StateEventContent::RoomAliases),
        SyncStateEvent::RoomAvatar => Ok(StateEventContent::RoomAvatar),
        SyncStateEvent::RoomCanonicalAlias => Ok(StateEventContent::RoomCanonicalAlias),
        SyncStateEvent::RoomCreate => Ok(StateEventContent::RoomCreate),
        SyncStateEvent::RoomEncryption => Ok(StateEventContent::RoomEncryption),
        SyncStateEvent::RoomGuestAccess => Ok(StateEventContent::RoomGuestAccess),
        SyncStateEvent::RoomHistoryVisibility => Ok(StateEventContent::RoomHistoryVisibility),
        SyncStateEvent::RoomJoinRules => Ok(StateEventContent::RoomJoinRules),
        SyncStateEvent::RoomName => Ok(StateEventContent::RoomName),
        SyncStateEvent::RoomPinnedEvents => Ok(StateEventContent::RoomPinnedEvents),
        SyncStateEvent::RoomPowerLevels => Ok(StateEventContent::RoomPowerLevels),
        SyncStateEvent::RoomServerAcl => Ok(StateEventContent::RoomServerAcl),
        SyncStateEvent::RoomThirdPartyInvite => Ok(StateEventContent::RoomThirdPartyInvite),
        SyncStateEvent::RoomTombstone => Ok(StateEventContent::RoomTombstone),
        SyncStateEvent::SpaceChild => Ok(StateEventContent::SpaceChild),
        SyncStateEvent::SpaceParent => Ok(StateEventContent::SpaceParent),
        SyncStateEvent::RoomMember { state_key, membership } => match membership {
            None => Err(ContentError::Redacted),
            Some(membership) => match membership_of(membership@) {
                Some(membership_state) => Ok(
                    StateEventContent::RoomMemberContent { user_id: state_key, membership_state },
                ),
                None => Err(ContentError::UnknownMembership),
            },
        },
        SyncStateEvent::RoomTopic { topic } => match topic {
            None => Err(ContentError::Redacted),
            Some(topic) => Ok(StateEventContent::RoomTopic { topic }),
        },
        SyncStateEvent::Other { event_type } => Err(ContentError::UnsupportedState { event_type }),
    }
}

impl StateEventContent {
    /// What of a state event is shown.
    pub fn try_from(event: &SyncStateEvent) -> (r: Result<Self, ContentError>)
        ensures
            r == state_content_of(*event),
    {
        match event {
            SyncStateEvent::PolicyRuleRoom => Ok(StateEventContent::PolicyRuleRoom),
            SyncStateEvent::PolicyRuleServer => Ok(StateEventContent::PolicyRuleServer),
            SyncStateEvent::PolicyRuleUser => Ok(StateEventContent::PolicyRuleUser),
            SyncStateEvent::RoomAliases => Ok(StateEventContent::RoomAliases),
            SyncStateEvent::RoomAvatar => Ok(StateEventContent::RoomAvatar),
            SyncStateEvent::RoomCanonicalAlias => Ok(StateEventContent::RoomCanonicalAlias),
            SyncStateEvent::RoomCreate => Ok(StateEventContent::RoomCreate),
            SyncStateEvent::RoomEncryption => Ok(StateEventContent::RoomEncryption),
            SyncStateEvent::RoomGuestAccess => Ok(StateEventContent::RoomGuestAccess),
            SyncStateEvent::RoomHistoryVisibility => Ok(StateEventContent::RoomHistoryVisibility),
            SyncStateEvent::RoomJoinRules => Ok(StateEventContent::RoomJoinRules),
            SyncStateEvent::RoomName => Ok(StateEventContent::RoomName),
            SyncStateEvent::RoomPinnedEvents => Ok(StateEventContent::RoomPinnedEvents),
            SyncStateEvent::RoomPowerLevels => Ok(StateEventContent::RoomPowerLevels),
            SyncStateEvent::RoomServerAcl => Ok(StateEventContent::RoomServerAcl),
            SyncStateEvent::RoomThirdPartyInvite => Ok(StateEventContent::RoomThirdPartyInvite),
            SyncStateEvent::RoomTombstone => Ok(StateEventContent::RoomTombstone),
            SyncStateEvent::SpaceChild => Ok(StateEventContent::SpaceChild),
            SyncStateEvent::SpaceParent => Ok(StateEventContent::SpaceParent),
            SyncStateEvent::RoomMember { state_key, membership } => match membership {
                None => Err(ContentError::Redacted),
                Some(membership) => match MembershipState::try_from(membership.as_str()) {
                    Ok(membership_state) => Ok(
                        StateEventContent::RoomMemberContent {
                            user_id: state_key.clone(),
                            membership_state,
                        },
                    ),
                    Err(_) => Err(ContentError::UnknownMembership),
                },
            },
            SyncStateEvent::RoomTopic { topic } => {
                let topic: String = get_original_content(topic)?;
                Ok(StateEventContent::RoomTopic { topic })
            },
            SyncStateEvent::Other { event_type } => Err(
                ContentError::UnsupportedState { event_type: event_type.clone() },
            ),
        }
    }
}

/// The text of an event that was not redacted.
fn get_original_content(content: &Option<String>) -> (r: Result<String, ContentError>)
    ensures
        r == (match *content {
            Some(content) => Ok(content),
            None => Err(ContentError::Redacted),
        }),
{
    match content {
        Some(content) => Ok(content.clone()),
        None => Err(ContentError::Redacted),
    }
}

/// How a message relates to another event.
pub enum Relation {
    /// It is a reply.
    Reply { in_reply_to: String },
    /// It belongs to a thread.
    Thread { event_id: String },
    /// Any other relation.
    Other,
}

/// The type of a message and its plain text.
pub struct MessageType {
    pub msgtype: String,
    pub body: String,
}

impl Clone for MessageType {
    fn clone(&self) -> (r: Self)
        ensures
            r == *self,
    {
        MessageType { msgtype: self.msgtype.clone(), body: self.body.clone() }
    }
}

/// The content of a message.
pub struct RoomMessage {
    /// The type of the message, or why it could not be read.
    pub message_type: Result<MessageType, String>,
    pub relates_to: Option<Relation>,
}

/// The content of a notification of a call.
pub struct RtcNotification {
    pub notification_type: String,
    /// When the sending device says that it was sent.
    pub sender_ts: u64,
    /// How long it is valid, in milliseconds.
    pub lifetime: u64,
    /// When the homeserver got it.
    pub origin_server_ts: u64,
}

/// The content of a redaction.
pub struct Redaction {
    /// The redacted event, as the content names it.
    pub content_redacts: Option<String>,
    /// The redacted event, as the event itself names it.
    pub redacts: Option<String>,
    pub reason: Option<String>,
}

/// The content of a message-like event, as far as it is read. The parts of an
/// event that was redacted are missing.
pub enum SyncMessageLikeEvent {
    CallAnswer,
    CallInvite,
    CallHangup,
    CallCandidates,
    KeyVerificationReady,
    KeyVerificationStart,
    KeyVerificationCancel,
    KeyVerificationAccept,
    KeyVerificationKey,
    KeyVerificationMac,
    KeyVerificationDone,
    RoomEncrypted,
    Sticker,
    RtcNotification { content: Option<RtcNotification> },
    UnstablePollStart { question: Option<String> },
    Reaction { related_event_id: Option<String> },
    RoomMessage { content: Option<RoomMessage> },
    RoomRedaction { content: Option<Redaction> },
    /// Any other message-like event.
    Other { event_type: String },
}

/// What of a message-like event is shown.
pub enum MessageLikeEventContent {
    CallAnswer,
    CallInvite,
    CallHangup,
    CallCandidates,
    KeyVerificationReady,
    KeyVerificationStart,
    KeyVerificationCancel,
    KeyVerificationAccept,
    KeyVerificationKey,
    KeyVerificationMac,
    KeyVerificationDone,
    RoomEncrypted,
    Sticker,
    RtcNotification {
        notification_type: String,
        /// The timestamp at which this notification is considered invalid.
        expiration_ts: u64,
    },
    Poll { question: String },
    ReactionContent { related_event_id: String },
    RoomMessage { message_type: MessageType, in_reply_to_event_id: Option<String> },
    RoomRedaction { redacted_event_id: Option<String>, reason: Option<String> },
}

/// The largest difference between the clocks of the sending device and the
/// homeserver for which the device's time is believed, in milliseconds.
pub const MAX_SENDER_TS_OFFSET: u64 = 20_000;

/// When a notification of a call stops being valid: its lifetime after the
/// time of the sending device, or after that of the homeserver if they are far
/// apart. The lifetime counts modulo 2^32, the sum stops at the largest safe
/// integer.
pub open spec fn expiration_ts_of(sender_ts: u64, lifetime: u64, origin_server_ts: u64) -> int {
    let offset = if sender_ts > origin_server_ts {
        sender_ts - origin_server_ts
    } else {
        origin_server_ts - sender_ts
    };
    let start = if offset > MAX_SENDER_TS_OFFSET {
        origin_server_ts
    } else {
        sender_ts
    };
    let end = start + lifetime % 0x1_0000_0000;
    if end > MAX_SAFE_INT {
        MAX_SAFE_INT as int
    } else {
        end
    }
}

/// `ruma::events::rtc::notification::RtcNotificationEventContent::expiration_ts`
/// with the default offset, for times that are safe integers. Claimed: the
/// time that `expiration_ts_of` states.
#[verifier::external_body]
fn expiration_ts(sender_ts: u64, lifetime: u64, origin_server_ts: u64) -> (r: u64)
    requires
        is_safe_int(sender_ts as int),
        is_safe_int(origin_server_ts as int),
    ensures
        r == expiration_ts_of(sender_ts, lifetime, origin_server_ts),
{
    let time = |ms| MilliSecondsSinceUnixEpoch(UInt::new_saturating(ms));
    let lifetime = std::time::Duration::from_millis(lifetime);
    let content = RtcNotificationEventContent::new(
        time(sender_ts),
        lifetime,
        NotificationType::Ring,
    );
    content.expiration_ts(time(origin_server_ts), None).get().into()
}

/// The event that a reply answers.
pub open spec fn reply_target(relates_to: Option<Relation>) -> Option<String> {
    match relates_to {
        Some(Relation::Reply { in_reply_to }) => Some(in_reply_to),
        _ => None,
    }
}

/// What of a message-like event is shown, or why nothing is.
pub open spec fn message_like_content_of(event: SyncMessageLikeEvent) -> Result<
    MessageLikeEventContent,
    ContentError,
> {
    match event {
        SyncMessageLikeEvent::CallAnswer => Ok(MessageLikeEventContent::CallAnswer),
        SyncMessageLikeEvent::CallInvite => Ok(MessageLikeEventContent::CallInvite),
        SyncMessageLikeEvent::CallHangup => Ok(MessageLikeEventContent::CallHangup),
        SyncMessageLikeEvent::CallCandidates => Ok(MessageLikeEventContent::CallCandidates),
        SyncMessageLikeEvent::KeyVerificationReady => Ok(MessageLikeEventContent::KeyVerificationReady),
        SyncMessageLikeEvent::KeyVerificationStart => Ok(MessageLikeEventContent::KeyVerificationStart),
        SyncMessageLikeEvent::KeyVerificationCancel => Ok(MessageLikeEventContent::KeyVerificationCancel),
        SyncMessageLikeEvent::KeyVerificationAccept => Ok(MessageLikeEventContent::KeyVerificationAccept),
        SyncMessageLikeEvent::KeyVerificationKey => Ok(MessageLikeEventContent::KeyVerificationKey),
        SyncMessageLikeEvent::KeyVerificationMac => Ok(MessageLikeEventContent::KeyVerificationMac),
        SyncMessageLikeEvent::KeyVerificationDone => Ok(MessageLikeEventContent::KeyVerificationDone),
        SyncMessageLikeEvent::RoomEncrypted => Ok(MessageLikeEventContent::RoomEncrypted),
        SyncMessageLikeEvent::Sticker => Ok(MessageLikeEventContent::Sticker),
        SyncMessageLikeEvent::RtcNotification { content } => match content {
            None => Err(ContentError::Redacted),
            Some(content) => Ok(
                MessageLikeEventContent::RtcNotification {
                    notification_type: content.notification_type,
                    expiration_ts: expiration_ts_of(
                        content.sender_ts,
                        content.lifetime,
                        content.origin_server_ts,
                    ) as u64,
                },
            ),
        },
        SyncMessageLikeEvent::UnstablePollStart { question } => match question {
            None => Err(ContentError::Redacted),
            Some(question) => Ok(MessageLikeEventContent::Poll { question }),
        },
        SyncMessageLikeEvent::Reaction { related_event_id } => match related_event_id {
            None => Err(ContentError::Redacted),
            Some(related_event_id) => Ok(
                MessageLikeEventContent::ReactionContent { related_event_id },
            ),
        },
        SyncMessageLikeEvent::RoomMessage { content } => match content {
            None => Err(ContentError::Redacted),
            Some(content) => match content.message_type {
                Ok(message_type) => Ok(
                    MessageLikeEventContent::RoomMessage {
                        message_type,
                        in_reply_to_event_id: reply_target(content.relates_to),
                    },
                ),
                Err(message) => Err(ContentError::MessageType { message }),
            },
        },
        SyncMessageLikeEvent::RoomRedaction { content } => match content {
            Some(content) => Ok(
                MessageLikeEventContent::RoomRedaction {
                    redacted_event_id: if content.content_redacts is Some {
                        content.content_redacts
                    } else {
                        content.redacts
                    },
                    reason: content.reason,
                },
            ),
            None => Ok(
                MessageLikeEventContent::RoomRedaction { redacted_event_id: None, reason: None },
            ),
        },
        SyncMessageLikeEvent::Other { event_type } => Err(
            ContentError::UnsupportedMessageLike { event_type },
        ),
    }
}

/// Whether the times of an event are safe integers, as all times of Matrix
/// events are.
pub open spec fn has_safe_times(event: SyncMessageLikeEvent) -> bool {
    event matches SyncMessageLikeEvent::RtcNotification { content: Some(content) } ==> is_safe_int(
        content.sender_ts as int,
    ) && is_safe_int(content.origin_server_ts as int)
}

impl MessageLikeEventContent {
    /// What of a message-like event is shown.
    pub fn try_from(event: &SyncMessageLikeEvent) -> (r: Result<Self, ContentError>)
        requires
            has_safe_times(*event),
        ensures
            r == message_like_content_of(*event),
    {
        match event {
            SyncMessageLikeEvent::CallAnswer => Ok(MessageLikeEventContent::CallAnswer),
            SyncMessageLikeEvent::CallInvite => Ok(MessageLikeEventContent::CallInvite),
            SyncMessageLikeEvent::CallHangup => Ok(MessageLikeEventContent::CallHangup),
            SyncMessageLikeEvent::CallCandidates => Ok(MessageLikeEventContent::CallCandidates),
            SyncMessageLikeEvent::KeyVerificationReady => Ok(MessageLikeEventContent::KeyVerificationReady),
            SyncMessageLikeEvent::KeyVerificationStart => Ok(MessageLikeEventContent::KeyVerificationStart),
            SyncMessageLikeEvent::KeyVerificationCancel => Ok(MessageLikeEventContent::KeyVerificationCancel),
            SyncMessageLikeEvent::KeyVerificationAccept => Ok(MessageLikeEventContent::KeyVerificationAccept),
            SyncMessageLikeEvent::KeyVerificationKey => Ok(MessageLikeEventContent::KeyVerificationKey),
            SyncMessageLikeEvent::KeyVerificationMac => Ok(MessageLikeEventContent::KeyVerificationMac),
            SyncMessageLikeEvent::KeyVerificationDone => Ok(MessageLikeEventContent::KeyVerificationDone),
            SyncMessageLikeEvent::RoomEncrypted => Ok(MessageLikeEventContent::RoomEncrypted),
            SyncMessageLikeEvent::Sticker => Ok(MessageLikeEventContent::Sticker),
            SyncMessageLikeEvent::RtcNotification { content } => match content {
                None => Err(ContentError::Redacted),
                Some(content) => {
                    let expiration_ts: u64 = expiration_ts(
                        content.sender_ts,
                        content.lifetime,
                        content.origin_server_ts,
                    );
                    Ok(
                        MessageLikeEventContent::RtcNotification {
                            notification_type: content.notification_type.clone(),
                            expiration_ts,
                        },
                    )
                },
            },
            SyncMessageLikeEvent::UnstablePollStart { question } => {
                let question: String = get_original_content(question)?;
                Ok(MessageLikeEventContent::Poll { question })
            },
            SyncMessageLikeEvent::Reaction { related_event_id } => {
                let related_event_id: String = get_original_content(related_event_id)?;
                Ok(MessageLikeEventContent::ReactionContent { related_event_id })
            },
            SyncMessageLikeEvent::RoomMessage { content } => match content {
                None => Err(ContentError::Redacted),
                Some(content) => match &content.message_type {
                    Ok(message_type) => {
                        let in_reply_to_event_id: Option<String> = match &content.relates_to {
                            Some(Relation::Reply { in_reply_to }) => Some(in_reply_to.clone()),
                            _ => None,
                        };
                        Ok(
                            MessageLikeEventContent::RoomMessage {
                                message_type: message_type.clone(),
                                in_reply_to_event_id,
                            },
                        )
                    },
                    Err(message) => Err(ContentError::MessageType { message: message.clone() }),
                },
            },
            SyncMessageLikeEvent::RoomRedaction { content } => match content {
                Some(content) => {
                    let redacted_event_id: Option<String> = if content.content_redacts.is_some() {
                        clone_text(&content.content_redacts)
                    } else {
                        clone_text(&content.redacts)
                    };
                    Ok(
                        MessageLikeEventContent::RoomRedaction {
                            redacted_event_id,
                            reason: clone_text(&content.reason),
                        },
                    )
                },
                None => Ok(
                    MessageLikeEventContent::RoomRedaction {
                        redacted_event_id: None,
                        reason: None,
                    },
                ),
            },
            SyncMessageLikeEvent::Other { event_type } => Err(
                ContentError::UnsupportedMessageLike { event_type: event_type.clone() },
            ),
        }
    }
}

/// A copy of an optional text.
pub(crate) fn clone_text(text: &Option<String>) -> (r: Option<String>)
    ensures
        r == *text,
{
    match text {
        Some(text) => Some(text.clone()),
        None => None,
    }
}

/// The content of an event that is shown.
pub enum TimelineEventContent {
    MessageLike { content: MessageLikeEventContent },
    State { content: StateEventContent },
}

/// An event of a room's timeline.
pub enum SyncTimelineEvent {
    /// A message-like event, with its relation to another event. A redacted
    /// event has none.
    MessageLike { event: SyncMessageLikeEvent, relation: Option<Relation> },
    /// A state event.
    State { event: SyncStateEvent },
}

/// An event of a room's timeline, as it came with the sync.
pub struct TimelineEvent {
    pub id: String,
    pub sender: String,
    /// In milliseconds since the Unix epoch.
    pub origin_server_ts: u64,
    pub event: SyncTimelineEvent,
}

/// What of an event is shown, or why nothing is.
pub open spec fn content_of(event: SyncTimelineEvent) -> Result<
    TimelineEventContent,
    ContentError,
> {
    match event {
        SyncTimelineEvent::MessageLike { event, .. } => match message_like_content_of(event) {
            Ok(content) => Ok(TimelineEventContent::MessageLike { content }),
            Err(error) => Err(error),
        },
        SyncTimelineEvent::State { event } => match state_content_of(event) {
            Ok(content) => Ok(TimelineEventContent::State { content }),
            Err(error) => Err(error),
        },
    }
}

impl TimelineEvent {
    /// The ID of the event.
    pub fn event_id(&self) -> (r: String)
        ensures
            r == self.id,
    {
        self.id.clone()
    }

    /// The user who sent the event.
    pub fn sender_id(&self) -> (r: String)
        ensures
            r == self.sender,
    {
        self.sender.clone()
    }

    /// When the homeserver got the event.
    pub fn timestamp(&self) -> (r: u64)
        ensures
            r == self.origin_server_ts,
    {
        self.origin_server_ts
    }

    /// The content of the event that is shown.
    pub fn content(&self) -> (r: Result<TimelineEventContent, ClientError>)
        requires
            self.event matches SyncTimelineEvent::MessageLike { event, .. } ==> has_safe_times(
                event,
            ),
        ensures
            match content_of(self.event) {
                Ok(content) => r == Ok::<TimelineEventContent, ClientError>(content),
                Err(error) => {
                    &&& r matches Err(ClientError::Generic { msg, details })
                    &&& msg@ == content_error_text(error)
                    &&& details matches Some(text)
                    &&& text@ == content_error_text(error)
                },
            },
    {
        match &self.event {
            SyncTimelineEvent::MessageLike { event, .. } => {
                match MessageLikeEventContent::try_from(event) {
                    Ok(content) => Ok(TimelineEventContent::MessageLike { content }),
                    Err(error) => {
                        let text: String = error.to_string();
                        Err(ClientError::from_err(error.to_string().as_str(), text))
                    },
                }
            },
            SyncTimelineEvent::State { event } => match StateEventContent::try_from(event) {
                Ok(content) => Ok(TimelineEventContent::State { content }),
                Err(error) => {
                    let text: String = error.to_string();
                    Err(ClientError::from_err(error.to_string().as_str(), text))
                },
            },
        }
    }

    /// Returns the thread root event id for the event, if it's part of a
    /// thread.
    pub fn thread_root_event_id(&self) -> (r: Option<String>)
        ensures
            r == (match self.event {
                SyncTimelineEvent::MessageLike {
                    relation: Some(Relation::Thread { event_id }),
                    ..
                } => Some(event_id),
                _ => None,
            }),
    {
        match &self.event {
            SyncTimelineEvent::MessageLike { relation, .. } => match relation {
                Some(Relation::Thread { event_id }) => Some(event_id.clone()),
                _ => None,
            },
            SyncTimelineEvent::State { .. } => None,
        }
    }
}

/// The kind of a message.
#[derive(Clone, Copy, Debug, PartialEq, Eq, Structural)]
pub enum RoomMessageEventMessageType {
    Audio,
    Emote,
    File,
    Image,
    Location,
    Notice,
    ServerNotice,
    Text,
    Video,
    VerificationRequest,
    Other,
}

/// The kind of the messages with the given `msgtype`.
pub open spec fn message_kind(msgtype: Seq<char>) -> RoomMessageEventMessageType {
    if msgtype == "m.audio"@ {
        RoomMessageEventMessageType::Audio
    } else if msgtype == "m.emote"@ {
        RoomMessageEventMessageType::Emote
    } else if msgtype == "m.file"@ {
        RoomMessageEventMessageType::File
    } else if msgtype == "m.image"@ {
        RoomMessageEventMessageType::Image
    } else if msgtype == "m.location"@ {
        RoomMessageEventMessageType::Location
    } else if msgtype == "m.notice"@ {
        RoomMessageEventMessageType::Notice
    } else if msgtype == "m.server_notice"@ {
        RoomMessageEventMessageType::ServerNotice
    } else if msgtype == "m.text"@ {
        RoomMessageEventMessageType::Text
    } else if msgtype == "m.video"@ {
        RoomMessageEventMessageType::Video
    } else if msgtype == "m.key.verification.request"@ {
        RoomMessageEventMessageType::VerificationRequest
    } else {
        RoomMessageEventMessageType::Other
    }
}

impl RoomMessageEventMessageType {
    /// The kind of the messages with the given `msgtype`.
    pub fn from(msgtype: &str) -> (r: Self)
        ensures
            r == message_kind(msgtype@),
    {
        if same(msgtype, "m.audio") {
            RoomMessageEventMessageType::Audio
        } else if same(msgtype, "m.emote") {
            RoomMessageEventMessageType::Emote
        } else if same(msgtype, "m.file") {
            RoomMessageEventMessageType::File
        } else if same(msgtype, "m.image") {
            RoomMessageEventMessageType::Image
        } else if same(msgtype, "m.location") {
            RoomMessageEventMessageType::Location
        } else if same(msgtype, "m.notice") {
            RoomMessageEventMessageType::Notice
        } else if same(msgtype, "m.server_notice") {
            RoomMessageEventMessageType::ServerNotice
        } else if same(msgtype, "m.text") {
            RoomMessageEventMessageType::Text
        } else if same(msgtype, "m.video") {
            RoomMessageEventMessageType::Video
        } else if same(msgtype, "m.key.verification.request") {
            RoomMessageEventMessageType::VerificationRequest
        } else {
            RoomMessageEventMessageType::Other
        }
    }
}

/// Contains the 2 possible identifiers of an event, either it has a remote
/// event id or a local transaction id, never both or none.
pub enum EventOrTransactionId {
    EventId { event_id: String },
    TransactionId { transaction_id: String },
}

/// What identifies an item of a timeline.
pub enum TimelineEventItemId {
    /// The item is remote; its event ID.
    EventId(String),
    /// The item is local; its transaction ID.
    TransactionId(String),
}

impl TimelineEventItemId {
    /// The event ID, if there is one, is valid.
    pub open spec fn wf(self) -> bool {
        self matches TimelineEventItemId::EventId(event_id) ==> event_id_refusal(event_id@) is None
    }

    /// What the identifier identifies: an event ID has to be one, any text is a
    /// transaction ID.
    pub fn try_from(value: EventOrTransactionId) -> (r: Result<Self, IdParseError>)
        ensures
            item_id_result(value, r),
    {
        match value {
            EventOrTransactionId::EventId { event_id } => match parse_event_id(event_id.as_str()) {
                Ok(()) => Ok(TimelineEventItemId::EventId(event_id)),
                Err(error) => Err(error),
            },
            EventOrTransactionId::TransactionId { transaction_id } => Ok(
                TimelineEventItemId::TransactionId(transaction_id),
            ),
        }
    }
}

/// What an identifier identifies, or why it is refused.
pub open spec fn item_id_result(
    value: EventOrTransactionId,
    r: Result<TimelineEventItemId, IdParseError>,
) -> bool {
    match value {
        EventOrTransactionId::EventId { event_id } => match event_id_refusal(event_id@) {
            None => r == Ok::<TimelineEventItemId, IdParseError>(
                TimelineEventItemId::EventId(event_id),
            ),
            Some(texts) => r matches Err(error) && (error.message@, error.debug@) == texts,
        },
        EventOrTransactionId::TransactionId { transaction_id } => r == Ok::<
            TimelineEventItemId,
            IdParseError,
        >(TimelineEventItemId::TransactionId(transaction_id)),
    }
}

/// The identifier of an item of a timeline.
pub open spec fn identifier_of(value: TimelineEventItemId) -> EventOrTransactionId {
    match value {
        TimelineEventItemId::EventId(event_id) => EventOrTransactionId::EventId { event_id },
        TimelineEventItemId::TransactionId(transaction_id) => EventOrTransactionId::TransactionId {
            transaction_id,
        },
    }
}

impl EventOrTransactionId {
    /// The identifier of an item of a timeline.
    pub fn from(value: TimelineEventItemId) -> (r: Self)
        ensures
            r == identifier_of(value),
    {
        match value {
            TimelineEventItemId::EventId(event_id) => EventOrTransactionId::EventId { event_id },
            TimelineEventItemId::TransactionId(transaction_id) => {
                EventOrTransactionId::TransactionId { transaction_id }
            },
        }
    }

    /// Checks that it identifies an item of a timeline: an event ID has to be
    /// one, any text is a transaction ID.
    pub fn check(&self) -> (r: Result<(), ClientError>)
        ensures
            match *self {
                EventOrTransactionId::EventId { event_id } => id_checked(
                    event_id_refusal(event_id@),
                    r,
                ),
                EventOrTransactionId::TransactionId { .. } => r is Ok,
            },
    {
        match self {
            EventOrTransactionId::EventId { event_id } => check_event_id(event_id.as_str()),
            EventOrTransactionId::TransactionId { .. } => Ok(()),
        }
    }
}

/// An item of a timeline is found again by its identifier.
pub proof fn item_id_round_trip(
    value: TimelineEventItemId,
    r: Result<TimelineEventItemId, IdParseError>,
)
    requires
        value.wf(),
        item_id_result(identifier_of(value), r),
    ensures
        r == Ok::<TimelineEventItemId, IdParseError>(value),
{
}

/// An identifier that identifies an item is the identifier of that item, whose event
/// ID is valid. It is refused exactly if it is an event ID that is not one.
pub proof fn identifier_round_trip(
    value: EventOrTransactionId,
    r: Result<TimelineEventItemId, IdParseError>,
)
    requires
        item_id_result(value, r),
    ensures
        r matches Ok(id) ==> id.wf() && identifier_of(id) == value,
        r is Err <==> value is EventId && event_id_refusal(value->event_id@) is Some,
{
}

/// A type is only taken for one of the types here if events of that type are written with it.
pub proof fn types_are_taken_by_their_names(canonical: String, known: bool, r: TimelineEventType)
    requires
        call_ensures(TimelineEventType::from_canonical, (canonical, known), r),
    ensures
        r matches TimelineEventType::MessageLike { value } ==> {
            &&& value is Audio ==> canonical@ == "org.matrix.msc1767.audio"@
            &&& value is File ==> canonical@ == "org.matrix.msc1767.file"@
            &&& value is Image ==> canonical@ == "org.matrix.msc1767.image"@
            &&& value is Video ==> canonical@ == "org.matrix.msc1767.video"@
            &&& value is Voice ==> canonical@ == "org.matrix.msc3245.voice.v2"@
            &&& value is Emote ==> canonical@ == "org.matrix.msc1767.emote"@
            &&& value is Encrypted ==> canonical@ == "org.matrix.msc1767.encrypted"@
            &&& value is RoomMessage ==> canonical@ == "m.room.message"@
            &&& value is CallAnswer ==> canonical@ == "m.call.answer"@
            &&& value is CallInvite ==> canonical@ == "m.call.invite"@
            &&& value is CallHangup ==> canonical@ == "m.call.hangup"@
            &&& value is CallCandidates ==> canonical@ == "m.call.candidates"@
            &&& value is CallNegotiate ==> canonical@ == "m.call.negotiate"@
            &&& value is CallReject ==> canonical@ == "m.call.reject"@
            &&& value is CallSdpStreamMetadataChanged ==> canonical@ == "m.call.sdp_stream_metadata_changed"@
            &&& value is CallSelectAnswer ==> canonical@ == "m.call.select_answer"@
            &&& value is KeyVerificationReady ==> canonical@ == "m.key.verification.ready"@
            &&& value is KeyVerificationStart ==> canonical@ == "m.key.verification.start"@
            &&& value is KeyVerificationCancel ==> canonical@ == "m.key.verification.cancel"@
            &&& value is KeyVerificationAccept ==> canonical@ == "m.key.verification.accept"@
            &&& value is KeyVerificationKey ==> canonical@ == "m.key.verification.key"@
            &&& value is KeyVerificationMac ==> canonical@ == "m.key.verification.mac"@
            &&& value is KeyVerificationDone ==> canonical@ == "m.key.verification.done"@
            &&& value is Location ==> canonical@ == "m.location"@
            &&& value is Message ==> canonical@ == "org.matrix.msc1767.message"@
            &&& value is PollStart ==> canonical@ == "m.poll.start"@
            &&& value is UnstablePollStart ==> canonical@ == "org.matrix.msc3381.poll.start"@
            &&& value is PollResponse ==> canonical@ == "m.poll.response"@
            &&& value is UnstablePollResponse ==> canonical@ == "org.matrix.msc3381.poll.response"@
            &&& value is PollEnd ==> canonical@ == "m.poll.end"@
            &&& value is UnstablePollEnd ==> canonical@ == "org.matrix.msc3381.poll.end"@
            &&& value is Beacon ==> canonical@ == "org.matrix.msc3672.beacon"@
            &&& value is Reaction ==> canonical@ == "m.reaction"@
            &&& value is RoomEncrypted ==> canonical@ == "m.room.encrypted"@
            &&& value is RoomRedaction ==> canonical@ == "m.room.redaction"@
            &&& value is Sticker ==> canonical@ == "m.sticker"@
            &&& value is CallNotify ==> canonical@ == "org.matrix.msc4075.call.notify"@
            &&& value is RtcNotification ==> canonical@ == "org.matrix.msc4075.rtc.notification"@
            &&& value is RtcDecline ==> canonical@ == "org.matrix.msc4310.rtc.decline"@
            &&& value matches MessageLikeEventType::Other(name) ==> name == canonical && known
        },
        r matches TimelineEventType::State { value } ==> {
            &&& value is PolicyRuleRoom ==> canonical@ == "m.policy.rule.room"@
            &&& value is PolicyRuleServer ==> canonical@ == "m.policy.rule.server"@
            &&& value is PolicyRuleUser ==> canonical@ == "m.policy.rule.user"@
            &&& value is RoomAliases ==> canonical@ == "m.room.aliases"@
            &&& value is RoomAvatar ==> canonical@ == "m.room.avatar"@
            &&& value is RoomCanonicalAlias ==> canonical@ == "m.room.canonical_alias"@
            &&& value is RoomCreate ==> canonical@ == "m.room.create"@
            &&& value is RoomEncryption ==> canonical@ == "m.room.encryption"@
            &&& value is RoomGuestAccess ==> canonical@ == "m.room.guest_access"@
            &&& value is RoomHistoryVisibility ==> canonical@ == "m.room.history_visibility"@
            &&& value is RoomJoinRules ==> canonical@ == "m.room.join_rules"@
            &&& value is RoomMemberEvent ==> canonical@ == "m.room.member"@
            &&& value is RoomLanguage ==> canonical@ == "org.matrix.msc4334.room.language"@
            &&& value is RoomName ==> canonical@ == "m.room.name"@
            &&& value is RoomImagePack ==> canonical@ == "im.ponies.room_emotes"@
            &&& value is RoomPinnedEvents ==> canonical@ == "m.room.pinned_events"@
            &&& value is RoomPowerLevels ==> canonical@ == "m.room.power_levels"@
            &&& value is RoomServerAcl ==> canonical@ == "m.room.server_acl"@
            &&& value is RoomThirdPartyInvite ==> canonical@ == "m.room.third_party_invite"@
            &&& value is RoomTombstone ==> canonical@ == "m.room.tombstone"@
            &&& value is RoomTopic ==> canonical@ == "m.room.topic"@
            &&& value is SpaceChild ==> canonical@ == "m.space.child"@
            &&& value is SpaceParent ==> canonical@ == "m.space.parent"@
            &&& value is BeaconInfo ==> canonical@ == "org.matrix.msc3672.beacon_info"@
            &&& value is CallMember ==> canonical@ == "org.matrix.msc3401.call.member"@
            &&& value is MemberHints ==> canonical@ == "io.element.functional_members"@
            &&& value matches StateEventType::Custom { value: name } ==> name == canonical
                && !known
        },
{
}

/// Message-like events are written with the name of their type.
pub proof fn message_like_events_are_written_by_name(event_type: MessageLikeEventType, r: String)
    requires
        call_ensures(MessageLikeEventType::into_event_type, (event_type,), r),
    ensures
        event_type is Audio ==> r@ == "org.matrix.msc1767.audio"@,
        event_type is File ==> r@ == "org.matrix.msc1767.file"@,
        event_type is Image ==> r@ == "org.matrix.msc1767.image"@,
        event_type is Video ==> r@ == "org.matrix.msc1767.video"@,
        event_type is Voice ==> r@ == "org.matrix.msc3245.voice.v2"@,
        event_type is Emote ==> r@ == "org.matrix.msc1767.emote"@,
        event_type is Encrypted ==> r@ == "org.matrix.msc1767.encrypted"@,
        event_type is RoomMessage ==> r@ == "m.room.message"@,
        event_type is CallAnswer ==> r@ == "m.call.answer"@,
        event_type is CallInvite ==> r@ == "m.call.invite"@,
        event_type is CallHangup ==> r@ == "m.call.hangup"@,
        event_type is CallCandidates ==> r@ == "m.call.candidates"@,
        event_type is CallNegotiate ==> r@ == "m.call.negotiate"@,
        event_type is CallReject ==> r@ == "m.call.reject"@,
        event_type is CallSdpStreamMetadataChanged ==> r@ == "m.call.sdp_stream_metadata_changed"@,
        event_type is CallSelectAnswer ==> r@ == "m.call.select_answer"@,
        event_type is KeyVerificationReady ==> r@ == "m.key.verification.ready"@,
        event_type is KeyVerificationStart ==> r@ == "m.key.verification.start"@,
        event_type is KeyVerificationCancel ==> r@ == "m.key.verification.cancel"@,
        event_type is KeyVerificationAccept ==> r@ == "m.key.verification.accept"@,
        event_type is KeyVerificationKey ==> r@ == "m.key.verification.key"@,
        event_type is KeyVerificationMac ==> r@ == "m.key.verification.mac"@,
        event_type is KeyVerificationDone ==> r@ == "m.key.verification.done"@,
        event_type is Location ==> r@ == "m.location"@,
        event_type is Message ==> r@ == "org.matrix.msc1767.message"@,
        event_type is PollStart ==> r@ == "m.poll.start"@,
        event_type is UnstablePollStart ==> r@ == "org.matrix.msc3381.poll.start"@,
        event_type is PollResponse ==> r@ == "m.poll.response"@,
        event_type is UnstablePollResponse ==> r@ == "org.matrix.msc3381.poll.response"@,
        event_type is PollEnd ==> r@ == "m.poll.end"@,
        event_type is UnstablePollEnd ==> r@ == "org.matrix.msc3381.poll.end"@,
        event_type is Beacon ==> r@ == "org.matrix.msc3672.beacon"@,
        event_type is Reaction ==> r@ == "m.reaction"@,
        event_type is RoomEncrypted ==> r@ == "m.room.encrypted"@,
        event_type is RoomRedaction ==> r@ == "m.room.redaction"@,
        event_type is Sticker ==> r@ == "m.sticker"@,
        event_type is CallNotify ==> r@ == "org.matrix.msc4075.call.notify"@,
        event_type is RtcNotification ==> r@ == "org.matrix.msc4075.rtc.notification"@,
        event_type is RtcDecline ==> r@ == "org.matrix.msc4310.rtc.decline"@,
{
}

/// State events are written with the name of their type.
pub proof fn state_events_are_written_by_name(event_type: StateEventType, r: String)
    requires
        call_ensures(StateEventType::into_event_type, (event_type,), r),
    ensures
        event_type is PolicyRuleRoom ==> r@ == "m.policy.rule.room"@,
        event_type is PolicyRuleServer ==> r@ == "m.policy.rule.server"@,
        event_type is PolicyRuleUser ==> r@ == "m.policy.rule.user"@,
        event_type is RoomAliases ==> r@ == "m.room.aliases"@,
        event_type is RoomAvatar ==> r@ == "m.room.avatar"@,
        event_type is RoomCanonicalAlias ==> r@ == "m.room.canonical_alias"@,
        event_type is RoomCreate ==> r@ == "m.room.create"@,
        event_type is RoomEncryption ==> r@ == "m.room.encryption"@,
        event_type is RoomGuestAccess ==> r@ == "m.room.guest_access"@,
        event_type is RoomHistoryVisibility ==> r@ == "m.room.history_visibility"@,
        event_type is RoomJoinRules ==> r@ == "m.room.join_rules"@,
        event_type is RoomMemberEvent ==> r@ == "m.room.member"@,
        event_type is RoomLanguage ==> r@ == "org.matrix.msc4334.room.language"@,
        event_type is RoomName ==> r@ == "m.room.name"@,
        event_type is RoomImagePack ==> r@ == "im.ponies.room_emotes"@,
        event_type is RoomPinnedEvents ==> r@ == "m.room.pinned_events"@,
        event_type is RoomPowerLevels ==> r@ == "m.room.power_levels"@,
        event_type is RoomServerAcl ==> r@ == "m.room.server_acl"@,
        event_type is RoomThirdPartyInvite ==> r@ == "m.room.third_party_invite"@,
        event_type is RoomTombstone ==> r@ == "m.room.tombstone"@,
        event_type is RoomTopic ==> r@ == "m.room.topic"@,
        event_type is SpaceChild ==> r@ == "m.space.child"@,
        event_type is SpaceParent ==> r@ == "m.space.parent"@,
        event_type is BeaconInfo ==> r@ == "org.matrix.msc3672.beacon_info"@,
        event_type is CallMember ==> r@ == "org.matrix.msc3401.call.member"@,
        event_type is MemberHints ==> r@ == "io.element.functional_members"@,
{
}

/// A state event is shown as what it is, with the member and their membership or the topic that it
/// tells; what was redacted or is not known is not shown.
pub proof fn state_events_are_shown(event: SyncStateEvent, r: Result<StateEventContent, ContentError>)
    requires
        call_ensures(StateEventContent::try_from, (&event,), r),
    ensures
        event is PolicyRuleRoom <==> (r is Ok && r->Ok_0 is PolicyRuleRoom),
        event is PolicyRuleServer <==> (r is Ok && r->Ok_0 is PolicyRuleServer),
        event is PolicyRuleUser <==> (r is Ok && r->Ok_0 is PolicyRuleUser),
        event is RoomAliases <==> (r is Ok && r->Ok_0 is RoomAliases),
        event is RoomAvatar <==> (r is Ok && r->Ok_0 is RoomAvatar),
        event is RoomCanonicalAlias <==> (r is Ok && r->Ok_0 is RoomCanonicalAlias),
        event is RoomCreate <==> (r is Ok && r->Ok_0 is RoomCreate),
        event is RoomEncryption <==> (r is Ok && r->Ok_0 is RoomEncryption),
        event is RoomGuestAccess <==> (r is Ok && r->Ok_0 is RoomGuestAccess),
        event is RoomHistoryVisibility <==> (r is Ok && r->Ok_0 is RoomHistoryVisibility),
        event is RoomJoinRules <==> (r is Ok && r->Ok_0 is RoomJoinRules),
        event is RoomName <==> (r is Ok && r->Ok_0 is RoomName),
        event is RoomPinnedEvents <==> (r is Ok && r->Ok_0 is RoomPinnedEvents),
        event is RoomPowerLevels <==> (r is Ok && r->Ok_0 is RoomPowerLevels),
        event is RoomServerAcl <==> (r is Ok && r->Ok_0 is RoomServerAcl),
        event is RoomThirdPartyInvite <==> (r is Ok && r->Ok_0 is RoomThirdPartyInvite),
        event is RoomTombstone <==> (r is Ok && r->Ok_0 is RoomTombstone),
        event is SpaceChild <==> (r is Ok && r->Ok_0 is SpaceChild),
        event is SpaceParent <==> (r is Ok && r->Ok_0 is SpaceParent),
        event matches SyncStateEvent::RoomTopic { topic } ==> (r is Ok <==> topic is Some) && (
        topic is Some ==> r->Ok_0 == (StateEventContent::RoomTopic { topic: topic->0 })),
        event matches SyncStateEvent::RoomMember { state_key, membership } ==> {
            &&& membership is None ==> r is Err && r->Err_0 is Redacted
            &&& r matches Ok(content) ==> content is RoomMemberContent && content->user_id
                == state_key && (content->membership_state is Join ==> membership->0@ == "join"@)
                && (content->membership_state is Leave ==> membership->0@ == "leave"@) && (
            content->membership_state is Ban ==> membership->0@ == "ban"@) && (
            content->membership_state is Invite ==> membership->0@ == "invite"@) && (
            content->membership_state is Knock ==> membership->0@ == "knock"@)
        },
        event matches SyncStateEvent::Other { event_type } ==> r == Err::<
            StateEventContent,
            ContentError,
        >(ContentError::UnsupportedState { event_type }),
{
}

/// A message-like event is shown as what it is, with what it tells: a message with what it answers,
/// a reaction with what it reacts to, a redaction with what it redacts and why, a poll with its
/// question. What was redacted or is not known is not shown.
pub proof fn message_like_events_are_shown(
    event: SyncMessageLikeEvent,
    r: Result<MessageLikeEventContent, ContentError>,
)
    requires
        call_ensures(MessageLikeEventContent::try_from, (&event,), r),
    ensures
        event is CallAnswer <==> (r is Ok && r->Ok_0 is CallAnswer),
        event is CallInvite <==> (r is Ok && r->Ok_0 is CallInvite),
        event is CallHangup <==> (r is Ok && r->Ok_0 is CallHangup),
        event is CallCandidates <==> (r is Ok && r->Ok_0 is CallCandidates),
        event is KeyVerificationReady <==> (r is Ok && r->Ok_0 is KeyVerificationReady),
        event is KeyVerificationStart <==> (r is Ok && r->Ok_0 is KeyVerificationStart),
        event is KeyVerificationCancel <==> (r is Ok && r->Ok_0 is KeyVerificationCancel),
        event is KeyVerificationAccept <==> (r is Ok && r->Ok_0 is KeyVerificationAccept),
        event is KeyVerificationKey <==> (r is Ok && r->Ok_0 is KeyVerificationKey),
        event is KeyVerificationMac <==> (r is Ok && r->Ok_0 is KeyVerificationMac),
        event is KeyVerificationDone <==> (r is Ok && r->Ok_0 is KeyVerificationDone),
        event is RoomEncrypted <==> (r is Ok && r->Ok_0 is RoomEncrypted),
        event is Sticker <==> (r is Ok && r->Ok_0 is Sticker),
        event matches SyncMessageLikeEvent::UnstablePollStart { question } ==> (r is Ok
            <==> question is Some) && (question is Some ==> r->Ok_0 == (
        MessageLikeEventContent::Poll { question: question->0 })),
        event matches SyncMessageLikeEvent::Reaction { related_event_id } ==> (r is Ok
            <==> related_event_id is Some) && (related_event_id is Some ==> r->Ok_0 == (
        MessageLikeEventContent::ReactionContent { related_event_id: related_event_id->0 })),
        event matches SyncMessageLikeEvent::RoomMessage { content: None } ==> r is Err
            && r->Err_0 is Redacted,
        event matches SyncMessageLikeEvent::RoomMessage { content: Some(message) } ==> {
            &&& r is Ok <==> message.message_type is Ok
            &&& r matches Ok(shown) ==> shown is RoomMessage && shown->message_type
                == message.message_type->Ok_0 && (shown->in_reply_to_event_id is Some <==> (
            message.relates_to is Some && message.relates_to->0 is Reply)) && (
            shown->in_reply_to_event_id is Some ==> message.relates_to == Some(
                Relation::Reply { in_reply_to: shown->in_reply_to_event_id->0 },
            ))
        },
        event matches SyncMessageLikeEvent::RoomRedaction { content: Some(redaction) } ==> {
            &&& r is Ok && r->Ok_0 is RoomRedaction
            &&& r->Ok_0->reason == redaction.reason
            &&& redaction.content_redacts is Some ==> r->Ok_0->redacted_event_id
                == redaction.content_redacts
            &&& redaction.content_redacts is None ==> r->Ok_0->redacted_event_id
                == redaction.redacts
        },
        event matches SyncMessageLikeEvent::RtcNotification { content: Some(call) } ==> {
            &&& r is Ok && r->Ok_0 is RtcNotification
            &&& r->Ok_0->notification_type == call.notification_type
        },
        event matches SyncMessageLikeEvent::Other { event_type } ==> r == Err::<
            MessageLikeEventContent,
            ContentError,
        >(ContentError::UnsupportedMessageLike { event_type }),
{
}

/// An event tells its own ID, sender and time, and its thread only if it is related to it as a part
/// of it.
pub proof fn events_tell_of_themselves(
    event: TimelineEvent,
    id: String,
    sender: String,
    time: u64,
    root: Option<String>,
)
    requires
        call_ensures(TimelineEvent::event_id, (&event,), id),
        call_ensures(TimelineEvent::sender_id, (&event,), sender),
        call_ensures(TimelineEvent::timestamp, (&event,), time),
        call_ensures(TimelineEvent::thread_root_event_id, (&event,), root),
    ensures
        id == event.id && sender == event.sender && time == event.origin_server_ts,
        event.event is State ==> root is None,
        event.event matches SyncTimelineEvent::MessageLike { relation, .. } ==> (root is Some
            <==> relation is Some && relation->0 is Thread) && (root is Some ==> relation == Some(
            Relation::Thread { event_id: root->0 },
        )),
{
}

/// What is identified by an event or transaction ID is checked as what it is.
pub proof fn identifiers_are_checked(
    event_id: String,
    transaction_id: String,
    event: Result<(), ClientError>,
    transaction: Result<(), ClientError>,
    item: Result<TimelineEventItemId, IdParseError>,
    local: Result<TimelineEventItemId, IdParseError>,
)
    requires
        call_ensures(
            EventOrTransactionId::check,
            (&EventOrTransactionId::EventId { event_id },),
            event,
        ),
        call_ensures(
            EventOrTransactionId::check,
            (&EventOrTransactionId::TransactionId { transaction_id },),
            transaction,
        ),
        call_ensures(
            TimelineEventItemId::try_from,
            (EventOrTransactionId::EventId { event_id },),
            item,
        ),
        call_ensures(
            TimelineEventItemId::try_from,
            (EventOrTransactionId::TransactionId { transaction_id },),
            local,
        ),
    ensures
        event is Ok <==> event_id_refusal(event_id@) is None,
        item is Ok <==> event is Ok,
        item is Ok ==> item->Ok_0 == TimelineEventItemId::EventId(event_id),
        transaction is Ok && local == Ok::<TimelineEventItemId, IdParseError>(
            TimelineEventItemId::TransactionId(transaction_id),
        ),
{
}

/// The kind of a message is the one that its `msgtype` names.
pub proof fn kinds_of_messages_are_named(text: &str, r: RoomMessageEventMessageType)
    requires
        call_ensures(RoomMessageEventMessageType::from, (text,), r),
    ensures
        r is Audio ==> text@ == "m.audio"@,
        r is Emote ==> text@ == "m.emote"@,
        r is File ==> text@ == "m.file"@,
        r is Image ==> text@ == "m.image"@,
        r is Location ==> text@ == "m.location"@,
        r is Notice ==> text@ == "m.notice"@,
        r is ServerNotice ==> text@ == "m.server_notice"@,
        r is Text ==> text@ == "m.text"@,
        r is Video ==> text@ == "m.video"@,
        r is VerificationRequest ==> text@ == "m.key.verification.request"@,
        r is Other ==> text@ != "m.audio"@,
        r is Other ==> text@ != "m.emote"@,
        r is Other ==> text@ != "m.file"@,
        r is Other ==> text@ != "m.image"@,
        r is Other ==> text@ != "m.location"@,
        r is Other ==> text@ != "m.notice"@,
        r is Other ==> text@ != "m.server_notice"@,
        r is Other ==> text@ != "m.text"@,
        r is Other ==> text@ != "m.video"@,
        r is Other ==> text@ != "m.key.verification.request"@,
{
}

/// The content of an event is that of its message or its state, and an error where there is none.
pub proof fn contents_are_of_the_event(
    event: TimelineEvent,
    r: Result<TimelineEventContent, ClientError>,
    message: Result<MessageLikeEventContent, ContentError>,
    state: Result<StateEventContent, ContentError>,
)
    requires
        call_ensures(TimelineEvent::content, (&event,), r),
        event.event matches SyncTimelineEvent::MessageLike { event, .. } ==> call_ensures(
            MessageLikeEventContent::try_from,
            (&event,),
            message,
        ),
        event.event matches SyncTimelineEvent::State { event } ==> call_ensures(
            StateEventContent::try_from,
            (&event,),
            state,
        ),
    ensures
        event.event is MessageLike ==> (r is Ok <==> message is Ok) && (r is Ok ==> r->Ok_0 == (
        TimelineEventContent::MessageLike { content: message->Ok_0 })),
        event.event is State ==> (r is Ok <==> state is Ok) && (r is Ok ==> r->Ok_0 == (
        TimelineEventContent::State { content: state->Ok_0 })),
{
}

/// Both kinds of identifiers become those of items and back.
pub proof fn item_ids_become_identifiers(text: String, event: EventOrTransactionId, local: EventOrTransactionId)
    requires
        call_ensures(EventOrTransactionId::from, (TimelineEventItemId::EventId(text),), event),
        call_ensures(
            EventOrTransactionId::from,
            (TimelineEventItemId::TransactionId(text),),
            local,
        ),
    ensures
        event == (EventOrTransactionId::EventId { event_id: text }),
        local == (EventOrTransactionId::TransactionId { transaction_id: text }),
{
}

/// Whatever name of a type is given, events of the type that it is taken for are written with the one
/// name of that type; a type that is not known is a custom state type and keeps its name.
pub proof fn types_are_written_as_they_were_read(
    text: &str,
    r: TimelineEventType,
    written: String,
)
    requires
        call_ensures(TimelineEventType::from, (text,), r),
        r matches TimelineEventType::MessageLike { value } ==> call_ensures(
            MessageLikeEventType::into_event_type,
            (value,),
            written,
        ),
        r matches TimelineEventType::State { value } ==> call_ensures(
            StateEventType::into_event_type,
            (value,),
            written,
        ),
    ensures
        written@ == canonical_timeline_type(text@),
        !timeline_type_is_known(text@) ==> written@ == text@,
        r matches TimelineEventType::State { value: StateEventType::Custom { value } } ==> (
        !timeline_type_is_known(text@) && value@ == text@),
{
}

} // verus!
