//! What is shown of a room.

use vstd::prelude::*;

use crate::create_room::RoomHistoryVisibility;
use crate::error::ClientError;
use crate::join_rule::{join_rule_if_known, JoinRule, SdkJoinRule};
use crate::notification_settings::RoomNotificationMode;
use crate::room::{Membership, RoomHero};
use crate::room_member::{has_known_membership, member_of, RoomMember, SdkRoomMember};

verus! {

/// What is shown of a room.
pub struct RoomInfo {
    pub id: String,
    pub creator: Option<String>,
    /// The name of the room, or one that was made up for it.
    pub display_name: Option<String>,
    /// The name of the room.
    pub raw_name: Option<String>,
    pub topic: Option<String>,
    pub avatar_url: Option<String>,
    pub is_direct: bool,
    pub is_public: bool,
    pub is_space: bool,
    pub is_tombstoned: bool,
    pub is_favourite: bool,
    pub canonical_alias: Option<String>,
    pub alternative_aliases: Vec<String>,
    pub membership: Membership,
    /// Who invited the user, if the user is invited and that is known.
    pub inviter: Option<RoomMember>,
    pub heroes: Vec<RoomHero>,
    pub active_members_count: u64,
    pub invited_members_count: u64,
    pub joined_members_count: u64,
    pub user_power_levels: Vec<(String, i64)>,
    pub highlight_count: u64,
    pub notification_count: u64,
    pub cached_user_defined_notification_mode: Option<RoomNotificationMode>,
    pub has_room_call: bool,
    pub active_room_call_participants: Vec<String>,
    /// Whether the user marked the room as unread.
    pub is_marked_unread: bool,
    /// How many messages were not read.
    pub num_unread_messages: u64,
    /// How many of them notify the user.
    pub num_unread_notifications: u64,
    /// How many of them mention the user.
    pub num_unread_mentions: u64,
    /// The events that are pinned.
    pub pinned_event_ids: Vec<String>,
    /// Who can join the room, if that is known.
    pub join_rule: Option<JoinRule>,
    /// Who can see the history of the room.
    pub history_visibility: RoomHistoryVisibility,
}

/// What is known of a room, as the SDK has it.
pub struct SdkRoomInfo {
    pub id: String,
    pub creator: Option<String>,
    pub display_name: Option<String>,
    pub raw_name: Option<String>,
    pub topic: Option<String>,
    pub avatar_url: Option<String>,
    /// Whether the room is a direct one, or why that is not known.
    pub is_direct: Result<bool, ClientError>,
    pub is_public: bool,
    pub is_space: bool,
    pub is_tombstoned: bool,
    pub is_favourite: bool,
    pub canonical_alias: Option<String>,
    pub alternative_aliases: Vec<String>,
    pub membership: Membership,
    /// The member who sent the invite, if there is one and they are known.
    pub inviter: Option<SdkRoomMember>,
    pub heroes: Vec<RoomHero>,
    pub active_members_count: u64,
    pub invited_members_count: u64,
    pub joined_members_count: u64,
    pub user_power_levels: Vec<(String, i64)>,
    pub highlight_count: u64,
    pub notification_count: u64,
    pub cached_user_defined_notification_mode: Option<RoomNotificationMode>,
    pub has_room_call: bool,
    pub active_room_call_participants: Vec<String>,
    pub is_marked_unread: bool,
    pub num_unread_messages: u64,
    pub num_unread_notifications: u64,
    pub num_unread_mentions: u64,
    pub pinned_event_ids: Option<Vec<String>>,
    pub join_rule: Option<SdkJoinRule>,
    /// The name of the history visibility.
    pub history_visibility: String,
}

/// Who is shown as the one who invited the user.
pub open spec fn shown_inviter(info: SdkRoomInfo) -> Option<RoomMember> {
    match info.inviter {
        Some(member) => if info.membership == Membership::Invited && has_known_membership(member) {
            Some(member_of(member))
        } else {
            None
        },
        None => None,
    }
}

/// What is shown of a room of which this is known.
pub open spec fn room_info_of(info: SdkRoomInfo, is_direct: bool, r: RoomInfo) -> bool {
    &&& r == (RoomInfo {
        id: info.id,
        creator: info.creator,
        display_name: info.display_name,
        raw_name: info.raw_name,
        topic: info.topic,
        avatar_url: info.avatar_url,
        is_direct,
        is_public: info.is_public,
        is_space: info.is_space,
        is_tombstoned: info.is_tombstoned,
        is_favourite: info.is_favourite,
        canonical_alias: info.canonical_alias,
        alternative_aliases: info.alternative_aliases,
        membership: info.membership,
        inviter: shown_inviter(info),
        heroes: info.heroes,
        active_members_count: info.active_members_count,
        invited_members_count: info.invited_members_count,
        joined_members_count: info.joined_members_count,
        user_power_levels: info.user_power_levels,
        highlight_count: info.highlight_count,
        notification_count: info.notification_count,
        cached_user_defined_notification_mode: info.cached_user_defined_notification_mode,
        has_room_call: info.has_room_call,
        active_room_call_participants: info.active_room_call_participants,
        is_marked_unread: info.is_marked_unread,
        num_unread_messages: info.num_unread_messages,
        num_unread_notifications: info.num_unread_notifications,
        num_unread_mentions: info.num_unread_mentions,
        pinned_event_ids: r.pinned_event_ids,
        join_rule: r.join_rule,
        history_visibility: r.history_visibility,
    })
    &&& r.pinned_event_ids@ == (match info.pinned_event_ids {
        Some(ids) => ids@,
        None => Seq::empty(),
    })
    &&& join_rule_if_known(info.join_rule, r.join_rule)
    &&& r.history_visibility.name() == info.history_visibility@
    &&& r.history_visibility is Custom <==> !RoomHistoryVisibility::is_standard(
        info.history_visibility@,
    )
}

impl RoomInfo {
    /// What is shown of a room; it has to be known whether it is a direct one.
    pub fn new(info: SdkRoomInfo) -> (r: Result<RoomInfo, ClientError>)
        ensures
            match info.is_direct {
                Ok(is_direct) => r matches Ok(shown) && room_info_of(info, is_direct, shown),
                Err(error) => r == Err::<RoomInfo, ClientError>(error),
            },
    {
        let is_direct: bool = match info.is_direct {
            Ok(is_direct) => is_direct,
            Err(error) => return Err(error),
        };
        let inviter: Option<RoomMember> = match info.inviter {
            Some(member) => if info.membership == Membership::Invited {
                match RoomMember::try_from(member) {
                    Ok(member) => Some(member),
                    Err(_) => None,
                }
            } else {
                None
            },
            None => None,
        };
        let pinned_event_ids: Vec<String> = match info.pinned_event_ids {
            Some(ids) => ids,
            None => Vec::new(),
        };
        let history_visibility: RoomHistoryVisibility = match RoomHistoryVisibility::try_from(
            info.history_visibility.as_str(),
        ) {
            Ok(visibility) => visibility,
            Err(error) => return Err(ClientError::from_not_yet_implemented(error)),
        };
        Ok(
            RoomInfo {
                id: info.id,
                creator: info.creator,
                display_name: info.display_name,
                raw_name: info.raw_name,
                topic: info.topic,
                avatar_url: info.avatar_url,
                is_direct,
                is_public: info.is_public,
                is_space: info.is_space,
                is_tombstoned: info.is_tombstoned,
                is_favourite: info.is_favourite,
                canonical_alias: info.canonical_alias,
                alternative_aliases: info.alternative_aliases,
                membership: info.membership,
                inviter,
                heroes: info.heroes,
                active_members_count: info.active_members_count,
                invited_members_count: info.invited_members_count,
                joined_members_count: info.joined_members_count,
                user_power_levels: info.user_power_levels,
                highlight_count: info.highlight_count,
                notification_count: info.notification_count,
                cached_user_defined_notification_mode: info.cached_user_defined_notification_mode,
                has_room_call: info.has_room_call,
                active_room_call_participants: info.active_room_call_participants,
                is_marked_unread: info.is_marked_unread,
                num_unread_messages: info.num_unread_messages,
                num_unread_notifications: info.num_unread_notifications,
                num_unread_mentions: info.num_unread_mentions,
                pinned_event_ids,
                join_rule: JoinRule::if_known(info.join_rule),
                history_visibility,
            },
        )
    }
}

/// What is shown of a room is what the SDK knows of it, each thing by its own name: what is not
/// converted can be read off again.
pub proof fn room_infos_show_the_room(info: SdkRoomInfo, shown: RoomInfo)
    requires
        call_ensures(RoomInfo::new, (info,), Ok::<RoomInfo, ClientError>(shown)),
    ensures
        info == (SdkRoomInfo {
            id: shown.id,
            creator: shown.creator,
            display_name: shown.display_name,
            raw_name: shown.raw_name,
            topic: shown.topic,
            avatar_url: shown.avatar_url,
            is_direct: Ok::<bool, ClientError>(shown.is_direct),
            is_public: shown.is_public,
            is_space: shown.is_space,
            is_tombstoned: shown.is_tombstoned,
            is_favourite: shown.is_favourite,
            canonical_alias: shown.canonical_alias,
            alternative_aliases: shown.alternative_aliases,
            membership: shown.membership,
            heroes: shown.heroes,
            active_members_count: shown.active_members_count,
            invited_members_count: shown.invited_members_count,
            joined_members_count: shown.joined_members_count,
            user_power_levels: shown.user_power_levels,
            highlight_count: shown.highlight_count,
            notification_count: shown.notification_count,
            cached_user_defined_notification_mode: shown.cached_user_defined_notification_mode,
            has_room_call: shown.has_room_call,
            active_room_call_participants: shown.active_room_call_participants,
            is_marked_unread: shown.is_marked_unread,
            num_unread_messages: shown.num_unread_messages,
            num_unread_notifications: shown.num_unread_notifications,
            num_unread_mentions: shown.num_unread_mentions,
            ..info
        }),
        info.pinned_event_ids is None ==> shown.pinned_event_ids@.len() == 0,
        info.pinned_event_ids is Some ==> shown.pinned_event_ids@ == info.pinned_event_ids->0@,
        info.history_visibility@ == "invited"@ <==> shown.history_visibility is Invited,
        info.history_visibility@ == "joined"@ <==> shown.history_visibility is Joined,
        info.history_visibility@ == "shared"@ <==> shown.history_visibility is Shared,
        info.history_visibility@ == "world_readable"@ <==> shown.history_visibility is WorldReadable,
{
    reveal_strlit("invited");
    reveal_strlit("joined");
    reveal_strlit("shared");
    reveal_strlit("world_readable");
    assert("invited"@.len() == 7 && "joined"@.len() == 6 && "shared"@.len() == 6);
    assert("world_readable"@.len() == 14);
    assert("joined"@[0] == 'j' && "shared"@[0] == 's');
}

/// Who invited the user is shown in a room that the user is invited to, and in no other; a room
/// of which it cannot be found out whether it is direct is not shown.
pub proof fn inviters_are_shown_of_invites(info: SdkRoomInfo, r: Result<RoomInfo, ClientError>)
    requires
        call_ensures(RoomInfo::new, (info,), r),
    ensures
        r is Ok <==> info.is_direct is Ok,
        r matches Err(error) ==> info.is_direct == Err::<bool, ClientError>(error),
        r matches Ok(shown) ==> {
            &&& shown.inviter is Some ==> info.membership is Invited && info.inviter is Some
                && shown.inviter->0.user_id == info.inviter->0.user_id
            &&& info.membership is Invited && info.inviter is Some && has_known_membership(
                info.inviter->0,
            ) ==> shown.inviter is Some
        },
{
}

/// The join rule of a room is shown with it.
pub proof fn join_rules_are_shown(info: SdkRoomInfo, shown: RoomInfo)
    requires
        call_ensures(RoomInfo::new, (info,), Ok::<RoomInfo, ClientError>(shown)),
    ensures
        info.join_rule is None ==> shown.join_rule is None,
        info.join_rule == Some(SdkJoinRule::Public) ==> shown.join_rule == Some(JoinRule::Public),
        info.join_rule == Some(SdkJoinRule::Invite) ==> shown.join_rule == Some(JoinRule::Invite),
        info.join_rule == Some(SdkJoinRule::Knock) ==> shown.join_rule == Some(JoinRule::Knock),
        info.join_rule == Some(SdkJoinRule::Private) ==> shown.join_rule == Some(JoinRule::Private),
        info.join_rule matches Some(SdkJoinRule::Restricted { .. }) ==> (shown.join_rule is Some
            ==> shown.join_rule->0 is Restricted),
        info.join_rule matches Some(SdkJoinRule::KnockRestricted { .. }) ==> (
        shown.join_rule is Some ==> shown.join_rule->0 is KnockRestricted),
{
}

} // verus!
