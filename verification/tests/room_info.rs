use matrix_sdk_ffi::create_room::RoomHistoryVisibility;
use matrix_sdk_ffi::error::ClientError;
use matrix_sdk_ffi::join_rule::{AllowRule, JoinRule, SdkAllowRule, SdkJoinRule};
use matrix_sdk_ffi::notification_settings::RoomNotificationMode;
use matrix_sdk_ffi::room::{Membership, RoomHero};
use matrix_sdk_ffi::room_info::{RoomInfo, SdkRoomInfo};
use matrix_sdk_ffi::room_member::{MembershipState, RoomMemberRole, SdkRoomMember};
use matrix_sdk_ffi::room_preview::{RoomPreview, SdkRoomPreview};

fn info() -> SdkRoomInfo {
    SdkRoomInfo {
        id: "!room:example.org".to_owned(),
        creator: Some("@alice:example.org".to_owned()),
        display_name: Some("Room".to_owned()),
        raw_name: None,
        topic: Some("Topic".to_owned()),
        avatar_url: None,
        is_direct: Ok(true),
        is_public: false,
        is_space: false,
        is_tombstoned: true,
        is_favourite: false,
        canonical_alias: None,
        alternative_aliases: vec!["#room:example.org".to_owned()],
        membership: Membership::Invited,
        inviter: Some(SdkRoomMember {
            user_id: "@bob:example.org".to_owned(),
            display_name: None,
            avatar_url: None,
            membership: "join".to_owned(),
            is_name_ambiguous: false,
            power_level: 0,
            normalized_power_level: 0,
            is_ignored: false,
            suggested_role_for_power_level: RoomMemberRole::User,
        }),
        heroes: vec![RoomHero {
            user_id: "@bob:example.org".to_owned(),
            display_name: None,
            avatar_url: None,
        }],
        active_members_count: 3,
        invited_members_count: 1,
        joined_members_count: 2,
        user_power_levels: vec![("@alice:example.org".to_owned(), 100)],
        highlight_count: 4,
        notification_count: 5,
        cached_user_defined_notification_mode: Some(RoomNotificationMode::Mute),
        has_room_call: false,
        active_room_call_participants: vec![],
        is_marked_unread: true,
        num_unread_messages: 6,
        num_unread_notifications: 7,
        num_unread_mentions: 8,
        pinned_event_ids: None,
        join_rule: Some(SdkJoinRule::Public),
        history_visibility: "shared".to_owned(),
    }
}

#[test]
fn room_info_shows_what_is_known() {
    let shown = RoomInfo::new(info()).ok().unwrap();
    assert_eq!(shown.id, "!room:example.org");
    assert!(shown.is_direct && shown.is_tombstoned && shown.is_marked_unread);
    assert_eq!(shown.alternative_aliases, vec!["#room:example.org".to_owned()]);
    let inviter = shown.inviter.unwrap();
    assert_eq!(inviter.user_id, "@bob:example.org");
    assert_eq!(inviter.membership, MembershipState::Join);
    assert_eq!(shown.heroes.len(), 1);
    assert_eq!(shown.user_power_levels, vec![("@alice:example.org".to_owned(), 100)]);
    assert_eq!((shown.highlight_count, shown.notification_count), (4, 5));
    assert_eq!(
        (shown.num_unread_messages, shown.num_unread_notifications, shown.num_unread_mentions),
        (6, 7, 8)
    );
    assert!(shown.pinned_event_ids.is_empty());
    assert!(matches!(shown.join_rule, Some(JoinRule::Public)));
    assert!(matches!(shown.history_visibility, RoomHistoryVisibility::Shared));
}

#[test]
fn only_invitations_show_the_inviter() {
    let joined = SdkRoomInfo { membership: Membership::Joined, ..info() };
    assert!(RoomInfo::new(joined).ok().unwrap().inviter.is_none());
    let mut odd = info();
    odd.inviter = odd
        .inviter
        .map(|member| SdkRoomMember { membership: "other".to_owned(), ..member });
    assert!(RoomInfo::new(odd).ok().unwrap().inviter.is_none());
}

#[test]
fn unknown_parts_are_left_out() {
    let unknown = SdkRoomInfo {
        join_rule: Some(SdkJoinRule::Restricted {
            allow: vec![SdkAllowRule::Unknown { debug: "?".to_owned() }],
        }),
        history_visibility: "org.example.other".to_owned(),
        pinned_event_ids: Some(vec!["$1".to_owned()]),
        ..info()
    };
    let shown = RoomInfo::new(unknown).ok().unwrap();
    assert!(shown.join_rule.is_none());
    assert!(matches!(
        shown.history_visibility,
        RoomHistoryVisibility::Custom { value } if value == "org.example.other"
    ));
    assert_eq!(shown.pinned_event_ids, vec!["$1".to_owned()]);
    let restricted = SdkRoomInfo {
        join_rule: Some(SdkJoinRule::Restricted {
            allow: vec![SdkAllowRule::RoomMembership { room_id: "!a:b.org".to_owned() }],
        }),
        ..info()
    };
    match RoomInfo::new(restricted).ok().unwrap().join_rule {
        Some(JoinRule::Restricted { rules }) => {
            assert!(matches!(
                &rules[..],
                [AllowRule::RoomMembership { room_id }] if room_id == "!a:b.org"
            ));
        }
        _ => panic!("the rule is known"),
    }
}

#[test]
fn room_info_needs_to_know_directness() {
    let error = ClientError::Generic { msg: "gone".to_owned(), details: None };
    let broken = SdkRoomInfo { is_direct: Err(error), ..info() };
    assert!(matches!(
        RoomInfo::new(broken),
        Err(ClientError::Generic { msg, details: None }) if msg == "gone"
    ));
}

fn preview(state: Option<Membership>, join_rule: &str) -> RoomPreview {
    RoomPreview::try_from_sdk(SdkRoomPreview {
        room_id: "!room:example.org".to_owned(),
        canonical_alias: None,
        name: Some("Room".to_owned()),
        topic: None,
        avatar_url: None,
        num_joined_members: 3,
        room_type: None,
        is_world_readable: true,
        state,
        join_rule: join_rule.to_owned(),
    })
}

#[test]
fn previews_show_the_membership_and_the_join_rule() {
    let shown = preview(Some(Membership::Knocked), "public").info;
    assert_eq!(shown.room_id, "!room:example.org");
    assert_eq!(shown.name.as_deref(), Some("Room"));
    assert_eq!(shown.num_joined_members, 3);
    assert!(shown.is_history_world_readable);
    assert_eq!(shown.membership, Membership::Knocked);
    assert!(matches!(shown.join_rule, JoinRule::Public));
    assert_eq!(preview(None, "public").info.membership, Membership::Left);
    let rule = |name| preview(None, name).info.join_rule;
    assert!(matches!(rule("invite"), JoinRule::Invite));
    assert!(matches!(rule("knock"), JoinRule::Knock));
    assert!(matches!(rule("restricted"), JoinRule::Restricted { rules } if rules.is_empty()));
    assert!(matches!(
        rule("knock_restricted"),
        JoinRule::KnockRestricted { rules } if rules.is_empty()
    ));
    assert!(matches!(rule("other"), JoinRule::Private));
}
