use matrix_sdk_ffi::error::{ClientError, NotificationSettingsError};
use matrix_sdk_ffi::event::{
    MessageType, Relation, RoomMessage, SyncMessageLikeEvent, SyncTimelineEvent, TimelineEvent,
};
use matrix_sdk_ffi::join_rule::{JoinRule, SdkJoinRule};
use matrix_sdk_ffi::notification::{
    batch_results, check_notification_ids, checked_requests, sync_notification,
    BatchNotificationResult, NotificationEvent, NotificationItem, NotificationItemsRequest, NotificationSenderInfo, NotificationStatus,
    SdkNotificationItem, SdkNotificationStatus, SyncRoom,
};
use matrix_sdk_ffi::notification_service::{
    NotificationItem as ServiceItem, NotificationRoom, NotificationSender, NotificationService,
};
use matrix_sdk_ffi::notification_settings::{
    actions_from_sdk, any_highlight, any_sound, can_push_encrypted_event_to_device,
    check_settings_room, set_custom_push_rule, Action, ComparisonOperator, JsonValue,
    PushCondition, RoomNotificationMode, RoomNotificationSettings, RuleKind, SdkAction,
    SdkPushCondition, SdkTweak, Tweak, ENCRYPTED_EVENT_RULE, UNSTABLE_ENCRYPTED_EVENT_RULE,
};
use ruma::push::{PredefinedUnderrideRuleId, RuleKind as RumaRuleKind};
use ruma::UInt;

fn sound() -> SdkAction {
    SdkAction::SetTweak { value: SdkTweak::Sound { value: "default".to_owned() } }
}

fn highlight(value: bool) -> SdkAction {
    SdkAction::SetTweak { value: SdkTweak::Highlight { value } }
}

fn custom(value: Result<&str, &str>) -> SdkAction {
    let value = value.map(str::to_owned).map_err(str::to_owned);
    SdkAction::SetTweak { value: SdkTweak::Custom { name: "n".to_owned(), value } }
}

#[test]
fn unknown_actions_are_left_out() {
    let actions = vec![
        SdkAction::Notify,
        SdkAction::Unknown,
        sound(),
        custom(Err("odd")),
        custom(Ok("{}")),
        SdkAction::SetTweak { value: SdkTweak::Unknown },
        highlight(true),
    ];
    let known = actions_from_sdk(&actions);
    assert_eq!(known.len(), 4);
    assert!(matches!(known[0], Action::Notify));
    assert!(matches!(
        known[1],
        Action::SetTweak { value: Tweak::Sound { ref value } } if value == "default"
    ));
    assert!(matches!(
        known[2],
        Action::SetTweak { value: Tweak::Custom { ref name, ref value } } if name == "n" && value == "{}"
    ));
    assert!(matches!(known[3], Action::SetTweak { value: Tweak::Highlight { value: true } }));
    assert!(any_sound(&actions) && any_highlight(&actions));
    assert!(!any_sound(&vec![SdkAction::Notify]));
    assert!(!any_highlight(&vec![highlight(false)]));
}

#[test]
fn actions_that_cannot_be_handed_on() {
    let error = |action: SdkAction| match Action::try_from(&action) {
        Err(text) => text,
        Ok(_) => panic!(),
    };
    assert_eq!(error(SdkAction::Unknown), "Unsupported action type");
    assert_eq!(
        error(SdkAction::SetTweak { value: SdkTweak::Unknown }),
        "Failed to convert tweak: Unsupported tweak type"
    );
    assert_eq!(
        error(custom(Err("odd"))),
        "Failed to convert tweak: Failed to serialize custom tweak value: odd"
    );
}

#[test]
fn rules_take_json_tweaks() {
    let tweak = |value: &str| Tweak::Custom { name: "n".to_owned(), value: value.to_owned() };
    assert!(matches!(
        tweak("{ \"a\" : [1, 2] }").for_rule(),
        Ok(Tweak::Custom { ref value, .. }) if value == "{\"a\":[1,2]}"
    ));
    let error = serde_json::from_str::<serde_json::Value>("{").err().unwrap();
    match tweak("{").for_rule() {
        Err(text) => {
            assert_eq!(text, format!("Failed to deserialize custom tweak value: {error}"))
        }
        Ok(_) => panic!(),
    }
}

#[test]
fn push_rules_are_made() {
    let conditions = vec![
        PushCondition::RoomMemberCount { prefix: ComparisonOperator::Le, count: u64::MAX },
        PushCondition::EventPropertyIs {
            key: "k".to_owned(),
            value: JsonValue::Integer { value: i64::MIN },
        },
        PushCondition::EventMatch { key: "k".to_owned(), pattern: "p".to_owned() },
    ];
    let rule = set_custom_push_rule(
        "rule".to_owned(),
        RuleKind::Override,
        vec![Action::Notify],
        conditions,
    );
    let rule = rule.ok().unwrap();
    assert_eq!(rule.rule_id, "rule");
    assert!(matches!(rule.rule_kind, RuleKind::Override));
    assert_eq!(rule.actions.len(), 1);
    assert!(matches!(rule.conditions[0], PushCondition::RoomMemberCount { count: 0, .. }));
    assert!(matches!(
        rule.conditions[1],
        PushCondition::EventPropertyIs { value: JsonValue::Integer { value: 0 }, .. }
    ));
    assert!(matches!(rule.conditions[2], PushCondition::EventMatch { .. }));

    let odd = Action::SetTweak {
        value: Tweak::Custom { name: "n".to_owned(), value: "{".to_owned() },
    };
    match set_custom_push_rule("rule".to_owned(), RuleKind::Room, vec![odd], vec![]) {
        Err(NotificationSettingsError::Generic { msg }) => assert!(msg.starts_with(
            "Failed to convert tweak: Failed to deserialize custom tweak value: "
        )),
        _ => panic!(),
    }
}

#[test]
fn safe_numbers_stay() {
    let max = u64::from(UInt::MAX);
    let condition = PushCondition::RoomMemberCount { prefix: ComparisonOperator::Eq, count: max };
    assert!(matches!(
        condition.to_safe(),
        PushCondition::RoomMemberCount { count, .. } if count == max
    ));
    let condition =
        PushCondition::RoomMemberCount { prefix: ComparisonOperator::Eq, count: max + 1 };
    assert!(matches!(condition.to_safe(), PushCondition::RoomMemberCount { count: 0, .. }));
    assert!(matches!(
        JsonValue::Integer { value: -5 }.to_safe(),
        JsonValue::Integer { value: -5 }
    ));
    assert!(matches!(
        PushCondition::try_from(SdkPushCondition::Unknown),
        Err(ref text) if text == "Unsupported condition type"
    ));
    assert!(PushCondition::try_from(SdkPushCondition::Known { condition }).is_ok());
}

#[test]
fn rule_kinds_go_by_their_names() {
    for kind in [
        RumaRuleKind::Override,
        RumaRuleKind::Underride,
        RumaRuleKind::Sender,
        RumaRuleKind::Room,
        RumaRuleKind::Content,
    ] {
        let read = RuleKind::from(kind.as_str());
        assert_eq!(read.as_str(), kind.as_str());
        assert!(!matches!(read, RuleKind::Custom { .. }));
    }
    assert!(matches!(RuleKind::from("odd"), RuleKind::Custom { ref value } if value == "odd"));
}

#[test]
fn encrypted_events_are_pushed() {
    for (stable, unstable, pushed) in [
        (Some(true), None, true),
        (Some(false), Some(true), false),
        (None, Some(true), true),
        (None, Some(false), false),
        (None, None, false),
    ] {
        assert_eq!(can_push_encrypted_event_to_device(stable, unstable), pushed);
    }
    assert_eq!(ENCRYPTED_EVENT_RULE, ".m.rule.encrypted_event");
    assert_eq!(UNSTABLE_ENCRYPTED_EVENT_RULE, ".org.matrix.msc4028.encrypted_event");
    assert_ne!(ENCRYPTED_EVENT_RULE, PredefinedUnderrideRuleId::Encrypted.as_str());
}

#[test]
fn rooms_have_settings() {
    let settings = RoomNotificationSettings::new(None, RoomNotificationMode::Mute);
    assert!(settings.is_default);
    assert_eq!(settings.mode, RoomNotificationMode::Mute);
    let settings = RoomNotificationSettings::new(
        Some(RoomNotificationMode::AllMessages),
        RoomNotificationMode::Mute,
    );
    assert!(!settings.is_default);
    assert_eq!(settings.mode, RoomNotificationMode::AllMessages);
    assert!(matches!(check_settings_room("!a:b.c".to_owned()), Ok(ref id) if id == "!a:b.c"));
    assert!(matches!(
        check_settings_room("odd".to_owned()),
        Err(NotificationSettingsError::InvalidRoomId { ref room_id }) if room_id == "odd"
    ));
}

fn sdk_item() -> SdkNotificationItem {
    SdkNotificationItem {
        event: NotificationEvent::Invite { sender: "@a:b.c".to_owned() },
        sender_display_name: Some("Alice".to_owned()),
        sender_avatar_url: None,
        is_sender_name_ambiguous: true,
        room_computed_display_name: "Room".to_owned(),
        room_avatar_url: None,
        room_canonical_alias: Some("#a:b.c".to_owned()),
        room_topic: None,
        room_join_rule: Some(SdkJoinRule::Unknown { debug: "X".to_owned() }),
        joined_members_count: 3,
        is_room_encrypted: None,
        is_direct_message_room: true,
        is_space: false,
        is_noisy: Some(true),
        has_mention: None,
        thread_id: Some("$t".to_owned()),
        actions: Some(vec![sound(), SdkAction::Unknown]),
    }
}

fn assert_item(item: NotificationItem) {
    assert!(matches!(item.event, NotificationEvent::Invite { ref sender } if sender == "@a:b.c"));
    assert_eq!(item.sender_info.display_name.as_deref(), Some("Alice"));
    assert!(item.sender_info.is_name_ambiguous);
    assert_eq!(item.room_info.display_name, "Room");
    assert_eq!(item.room_info.canonical_alias.as_deref(), Some("#a:b.c"));
    assert!(item.room_info.join_rule.is_none());
    assert_eq!(item.room_info.joined_members_count, 3);
    assert_eq!(item.room_info.is_encrypted, None);
    assert!(item.room_info.is_direct && !item.room_info.is_space);
    assert_eq!(item.is_noisy, Some(true));
    assert_eq!(item.has_mention, None);
    assert_eq!(item.thread_id.as_deref(), Some("$t"));
    assert_eq!(item.actions.unwrap().len(), 1);
}

#[test]
fn notifications_are_converted() {
    assert_item(NotificationItem::from_inner(sdk_item()));
    match NotificationStatus::from(SdkNotificationStatus::Event { item: sdk_item() }) {
        NotificationStatus::Event { item } => assert_item(item),
        _ => panic!(),
    }
    assert!(matches!(
        NotificationStatus::from(SdkNotificationStatus::EventNotFound),
        NotificationStatus::EventNotFound
    ));
    assert!(matches!(
        NotificationStatus::from(SdkNotificationStatus::EventFilteredOut),
        NotificationStatus::EventFilteredOut
    ));
    assert!(matches!(
        BatchNotificationResult::from(Ok(SdkNotificationStatus::EventNotFound)),
        BatchNotificationResult::Fetched { status: NotificationStatus::EventNotFound }
    ));
    assert!(matches!(
        BatchNotificationResult::from(Err("m".to_owned())),
        BatchNotificationResult::Error { ref message } if message == "m"
    ));
}

#[test]
fn requests_are_checked() {
    let request = |room_id: &str, event_ids: &[&str]| NotificationItemsRequest {
        room_id: room_id.to_owned(),
        event_ids: event_ids.iter().map(|id| id.to_string()).collect(),
    };
    assert!(request("!a:b.c", &["$a:b.c", "$b:b.c"]).checked().is_ok());
    assert!(request("odd", &["odd"]).room_id().is_err());
    assert!(request("!a:b.c", &["$a:b.c", "odd"]).event_ids().is_err());
    assert!(request("!a:b.c", &["$a:b.c", "odd"]).checked().is_err());
    assert!(check_notification_ids("!a:b.c", "$a:b.c").is_ok());
    let room_error = ruma::RoomId::parse("odd").err().unwrap().to_string();
    match check_notification_ids("odd", "odd") {
        Err(ClientError::Generic { msg, .. }) => assert_eq!(msg, room_error),
        _ => panic!(),
    }
    assert!(check_notification_ids("!a:b.c", "odd").is_err());
}

fn sync_room() -> SyncRoom {
    SyncRoom {
        display_name: Some("Room".to_owned()),
        is_direct: Some(false),
        avatar_url: None,
        canonical_alias: None,
        topic: Some("t".to_owned()),
        join_rule: Some(SdkJoinRule::Public),
        joined_members_count: 2,
        is_encrypted: true,
        is_space: false,
    }
}

fn thread_message() -> NotificationEvent {
    let relation = || Some(Relation::Thread { event_id: "$t".to_owned() });
    NotificationEvent::Timeline {
        event: TimelineEvent {
            id: "$e".to_owned(),
            sender: "@a:b.c".to_owned(),
            origin_server_ts: 1,
            event: SyncTimelineEvent::MessageLike {
                event: SyncMessageLikeEvent::RoomMessage {
                    content: Some(RoomMessage {
                        message_type: Ok(MessageType {
                            msgtype: "m.text".to_owned(),
                            body: "hi".to_owned(),
                        }),
                        relates_to: relation(),
                    }),
                },
                relation: relation(),
            },
        },
    }
}

#[test]
fn syncs_give_notifications() {
    let actions = vec![SdkAction::Notify, highlight(true), SdkAction::Unknown];
    let item = sync_notification(&actions, Some(thread_message()), None, sync_room()).unwrap();
    assert_eq!(item.thread_id.as_deref(), Some("$t"));
    assert_eq!(item.is_noisy, Some(false));
    assert_eq!(item.has_mention, Some(true));
    assert_eq!(item.actions.unwrap().len(), 2);
    assert_eq!(item.sender_info.display_name, None);
    assert!(!item.sender_info.is_name_ambiguous);
    assert!(matches!(item.room_info.join_rule, Some(JoinRule::Public)));
    assert_eq!(item.room_info.is_encrypted, Some(true));

    let member = NotificationSenderInfo {
        display_name: Some("Alice".to_owned()),
        avatar_url: None,
        is_name_ambiguous: true,
    };
    let invite = NotificationEvent::Invite { sender: "@a:b.c".to_owned() };
    let item = sync_notification(&vec![sound()], Some(invite), Some(member), sync_room()).unwrap();
    assert_eq!(item.thread_id, None);
    assert_eq!(item.is_noisy, Some(true));
    assert_eq!(item.sender_info.display_name.as_deref(), Some("Alice"));

    assert!(sync_notification(&vec![], None, None, sync_room()).is_none());
    let mut room = sync_room();
    room.display_name = None;
    assert!(sync_notification(&vec![], Some(thread_message()), None, room).is_none());
    let mut room = sync_room();
    room.is_direct = None;
    assert!(sync_notification(&vec![], Some(thread_message()), None, room).is_none());
}

#[test]
fn the_service_shows_nothing() {
    let service = NotificationService::new("base".to_owned(), "@a:b.c".to_owned());
    assert_eq!((service.base_path.as_str(), service.user_id.as_str()), ("base", "@a:b.c"));
    assert!(service.get_notification_item("!a:b.c".to_owned(), "$e".to_owned()).is_none());

    let event = TimelineEvent {
        id: "$e".to_owned(),
        sender: "@a:b.c".to_owned(),
        origin_server_ts: 1,
        event: SyncTimelineEvent::MessageLike {
            event: SyncMessageLikeEvent::Sticker,
            relation: None,
        },
    };
    let sender = NotificationSender { display_name: Some("Alice".to_owned()), avatar_url: None };
    let room = NotificationRoom {
        room_id: "!a:b.c".to_owned(),
        display_name: "Room".to_owned(),
        avatar_url: None,
        is_direct: true,
        is_encrypted: false,
    };
    let item = ServiceItem::new(event, &vec![SdkAction::Notify, sound()], Some(sender), room);
    assert!(!item.is_noisy);
    assert_eq!(item.sender_display_name.as_deref(), Some("Alice"));
    assert_eq!(item.room_display_name, "Room");
    assert!(item.is_direct && !item.is_encrypted);
}

#[test]
fn several_requests_are_checked_one_after_the_other() {
    let request = |room_id: &str, event_ids: &[&str]| NotificationItemsRequest {
        room_id: room_id.to_owned(),
        event_ids: event_ids.iter().map(|id| id.to_string()).collect(),
    };
    let good = || request("!a:b.c", &["$1", "$2"]);
    let checked = checked_requests(&vec![good(), request("!d:e.f", &[])]).ok().unwrap();
    assert_eq!(checked.len(), 2);
    assert_eq!(checked[0].room_id, "!a:b.c");
    assert_eq!(checked[0].event_ids, vec!["$1".to_owned(), "$2".to_owned()]);
    assert_eq!(checked[1].room_id, "!d:e.f");
    let requests = vec![good(), request("!d:e.f", &["1"]), request("room", &[])];
    let expected = ruma::EventId::parse("1").unwrap_err().to_string();
    assert!(matches!(
        checked_requests(&requests),
        Err(ClientError::Generic { msg, .. }) if msg == expected
    ));
    assert!(checked_requests(&vec![]).ok().unwrap().is_empty());
}

#[test]
fn several_results_keep_their_events() {
    let results = batch_results(vec![
        ("$1".to_owned(), Ok(SdkNotificationStatus::EventNotFound)),
        ("$2".to_owned(), Err("gone".to_owned())),
    ]);
    assert_eq!(results.len(), 2);
    assert_eq!(results[0].0, "$1");
    assert!(matches!(
        results[0].1,
        BatchNotificationResult::Fetched { status: NotificationStatus::EventNotFound }
    ));
    assert_eq!(results[1].0, "$2");
    assert!(matches!(
        &results[1].1,
        BatchNotificationResult::Error { message } if message == "gone"
    ));
}
