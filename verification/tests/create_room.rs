use matrix_sdk_ffi::create_room::{
    CreateRoomParameters, CreateRoomRequest, InitialState, NotificationPowerLevels, PowerLevels,
    RoomHistoryVisibility, RoomPreset, RoomVisibility,
};
use matrix_sdk_ffi::error::ClientError;
use matrix_sdk_ffi::join_rule::{AllowRule, JoinRule, SdkAllowRule, SdkJoinRule};
use ruma::api::client::room::Visibility;
use ruma::events::room::history_visibility::HistoryVisibility;
use ruma::events::StateEventType;
use ruma::power_levels::NotificationPowerLevels as RumaNotificationPowerLevels;
use ruma::room::RoomType;

#[test]
fn test_create_room_parameters_mapping() {
    let params = CreateRoomParameters {
        name: Some("A room".to_owned()),
        topic: Some("A topic".to_owned()),
        is_encrypted: true,
        is_direct: true,
        visibility: RoomVisibility::Public,
        preset: RoomPreset::PublicChat,
        invite: Some(vec!["@user:example.com".to_owned()]),
        avatar: Some("http://example.com/avatar.jpg".to_owned()),
        power_level_content_override: None,
        join_rule_override: Some(JoinRule::Knock),
        history_visibility_override: Some(RoomHistoryVisibility::Shared),
        canonical_alias: Some("#a-room:example.com".to_owned()),
        is_space: true,
    };

    let request = match CreateRoomRequest::try_from(params) {
        Ok(request) => request,
        Err(_) => panic!("CreateRoomParameters couldn't be transformed into a Request"),
    };
    let initial_state = request
        .initial_state
        .iter()
        .map(|e| StateEventType::from(e.event_type()))
        .collect::<Vec<_>>();

    assert_eq!(request.name, Some("A room".to_owned()));
    assert_eq!(request.topic, Some("A topic".to_owned()));
    assert!(initial_state.iter().any(|e| *e == StateEventType::RoomEncryption));
    assert!(request.is_direct);
    assert_eq!(Visibility::from(request.visibility.as_str()), Visibility::Public);
    assert!(matches!(request.preset, RoomPreset::PublicChat));
    assert_eq!(request.invite.len(), 1);
    assert!(initial_state.iter().any(|e| *e == StateEventType::RoomAvatar));
    assert!(initial_state.iter().any(|e| *e == StateEventType::RoomJoinRules));
    assert!(initial_state.iter().any(|e| *e == StateEventType::RoomHistoryVisibility));
    assert_eq!(request.room_alias_name, Some("#a-room:example.com".to_owned()));

    let room_type = request.room_type.map(RoomType::from);
    assert_eq!(room_type, Some(RoomType::Space));
}

fn parameters() -> CreateRoomParameters {
    CreateRoomParameters {
        name: None,
        topic: None,
        is_encrypted: false,
        is_direct: false,
        visibility: RoomVisibility::Private,
        preset: RoomPreset::PrivateChat,
        invite: None,
        avatar: None,
        power_level_content_override: None,
        join_rule_override: None,
        history_visibility_override: None,
        canonical_alias: None,
        is_space: false,
    }
}

#[test]
fn plain_rooms_have_no_initial_state() {
    let request = CreateRoomRequest::try_from(parameters()).ok().unwrap();
    assert!(request.initial_state.is_empty());
    assert!(request.invite.is_empty());
    assert_eq!(request.room_type, None);
    assert!(request.power_level_content_override.is_none());
}

#[test]
fn initial_state_is_in_order() {
    let mut params = parameters();
    params.is_encrypted = true;
    params.avatar = Some("mxc://a/b".to_owned());
    params.join_rule_override = Some(JoinRule::Public);
    params.history_visibility_override = Some(RoomHistoryVisibility::Joined);
    let request = CreateRoomRequest::try_from(params).ok().unwrap();
    assert!(matches!(request.initial_state[0], InitialState::Encryption));
    assert!(matches!(request.initial_state[1], InitialState::Avatar { ref url } if url == "mxc://a/b"));
    assert!(matches!(request.initial_state[2], InitialState::JoinRules { rule: JoinRule::Public }));
    assert!(matches!(
        request.initial_state[3],
        InitialState::HistoryVisibility { visibility: RoomHistoryVisibility::Joined }
    ));
    assert_eq!(request.initial_state.len(), 4);
}

#[test]
fn only_users_are_invited() {
    let mut params = parameters();
    params.invite = Some(["@a:b.c", "nobody", "@d:e.f"].map(str::to_owned).to_vec());
    let request = CreateRoomRequest::try_from(params).ok().unwrap();
    assert_eq!(request.invite, ["@a:b.c", "@d:e.f"]);
}

#[test]
fn rooms_that_cannot_be_created() {
    let mut params = parameters();
    params.history_visibility_override =
        Some(RoomHistoryVisibility::Custom { value: "odd".to_owned() });
    assert!(matches!(
        CreateRoomRequest::try_from(params),
        Err(ClientError::Generic { ref msg, details: None })
            if msg == "This functionality is not implemented yet."
    ));

    let mut params = parameters();
    params.join_rule_override = Some(JoinRule::Restricted {
        rules: vec![AllowRule::RoomMembership { room_id: "odd".to_owned() }],
    });
    assert!(CreateRoomRequest::try_from(params).is_err());

    let mut params = parameters();
    params.join_rule_override = Some(JoinRule::Custom { repr: "not json".to_owned() });
    let error = serde_json::from_str::<serde_json::Value>("not json").err().unwrap();
    match CreateRoomRequest::try_from(params) {
        Err(ClientError::Generic { msg, .. }) => assert_eq!(msg, error.to_string()),
        _ => panic!(),
    }
}

#[test]
fn power_levels_are_overridden() {
    let levels = PowerLevels {
        users_default: Some(1),
        events_default: Some(2),
        state_default: Some(3),
        ban: Some(4),
        kick: Some(5),
        redact: Some(6),
        invite: Some(7),
        notifications: None,
        users: vec![("@a:b.c".to_owned(), 100), ("nobody".to_owned(), 50)],
        events: vec![
            ("m.room.name".to_owned(), 8),
            ("m.beacon_info".to_owned(), 9),
            ("odd".to_owned(), 10),
        ],
    };
    let levels = levels.into_override();
    assert_eq!(levels.users_default, Some(1));
    assert_eq!(levels.events_default, Some(2));
    assert_eq!(levels.state_default, Some(3));
    assert_eq!(
        (levels.ban, levels.kick, levels.redact, levels.invite),
        (Some(4), Some(5), Some(6), Some(7))
    );
    assert_eq!(
        i64::from(levels.notifications.room),
        i64::from(RumaNotificationPowerLevels::new().room)
    );
    assert_eq!(levels.notifications.room, 50);
    assert_eq!(levels.users, [("@a:b.c".to_owned(), 100)]);
    assert_eq!(
        levels.events,
        [
            ("m.room.name".to_owned(), 8),
            ("org.matrix.msc3672.beacon_info".to_owned(), 9),
            ("odd".to_owned(), 10),
        ]
    );

    let levels = PowerLevels {
        users_default: None,
        events_default: None,
        state_default: None,
        ban: None,
        kick: None,
        redact: None,
        invite: None,
        notifications: Some(NotificationPowerLevels { room: 20 }),
        users: vec![],
        events: vec![],
    };
    assert_eq!(levels.into_override().notifications.room, 20);
}

#[test]
fn visibilities_go_by_their_names() {
    for name in ["public", "private", "odd"] {
        assert_eq!(RoomVisibility::from(name).as_str(), name);
        assert_eq!(Visibility::from(name).as_str(), name);
    }
    assert!(matches!(RoomVisibility::from("public"), RoomVisibility::Public));
    assert!(matches!(RoomVisibility::from("private"), RoomVisibility::Private));

    for visibility in [
        HistoryVisibility::Invited,
        HistoryVisibility::Joined,
        HistoryVisibility::Shared,
        HistoryVisibility::WorldReadable,
    ] {
        let name = visibility.as_str();
        let read = RoomHistoryVisibility::try_from(name).ok().unwrap();
        assert_eq!(read.try_as_str().ok().unwrap(), name);
    }
    let custom = RoomHistoryVisibility::Custom { value: "odd".to_owned() };
    assert!(custom.try_as_str().is_err());
}

#[test]
fn join_rules_are_checked() {
    assert!(matches!(JoinRule::Knock.checked(), Ok(JoinRule::Knock)));
    let rule = JoinRule::Custom { repr: r#"{"join_rule":"knock"}"#.to_owned() };
    assert!(rule.checked().is_ok());
    let rule = JoinRule::KnockRestricted {
        rules: vec![
            AllowRule::RoomMembership { room_id: "!a:b.c".to_owned() },
            AllowRule::Custom { json: r#"{"type":"org.example.rule"}"#.to_owned() },
        ],
    };
    assert!(rule.checked().is_ok());
    assert!(AllowRule::Custom { json: "{".to_owned() }.check().is_err());
    assert!(AllowRule::RoomMembership { room_id: "b.c".to_owned() }.check().is_err());
}

#[test]
fn join_rules_are_read() {
    assert!(matches!(JoinRule::try_from(SdkJoinRule::Invite), Ok(JoinRule::Invite)));
    assert!(matches!(
        JoinRule::try_from(SdkJoinRule::Custom { kind: "odd".to_owned() }),
        Ok(JoinRule::Custom { ref repr }) if repr == "odd"
    ));
    assert!(matches!(
        JoinRule::try_from(SdkJoinRule::Unknown { debug: "X".to_owned() }),
        Err(ref text) if text == "Unknown JoinRule: X"
    ));
    let allow = vec![
        SdkAllowRule::RoomMembership { room_id: "!a:b.c".to_owned() },
        SdkAllowRule::Custom { json: Ok("{}".to_owned()) },
    ];
    match JoinRule::try_from(SdkJoinRule::Restricted { allow }) {
        Ok(JoinRule::Restricted { rules }) => {
            assert!(matches!(rules[0], AllowRule::RoomMembership { ref room_id } if room_id == "!a:b.c"));
            assert!(matches!(rules[1], AllowRule::Custom { ref json } if json == "{}"));
            assert_eq!(rules.len(), 2);
        }
        _ => panic!(),
    }
    assert!(matches!(
        AllowRule::try_from(&SdkAllowRule::Unknown { debug: "X".to_owned() }),
        Err(ref text) if text == "Invalid AllowRule: X"
    ));
    assert!(matches!(
        AllowRule::try_from(&SdkAllowRule::Custom { json: Err("X".to_owned()) }),
        Err(ref text) if text == "Couldn't serialize custom AllowRule: X"
    ));
    assert!(JoinRule::if_known(None).is_none());
    assert!(JoinRule::if_known(Some(SdkJoinRule::Unknown { debug: "X".to_owned() })).is_none());
    assert!(matches!(JoinRule::if_known(Some(SdkJoinRule::Public)), Some(JoinRule::Public)));
}
