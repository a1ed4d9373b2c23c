use matrix_sdk_ffi::error::ClientError;
use matrix_sdk_ffi::event::{MessageLikeEventType, StateEventType};
use matrix_sdk_ffi::power_levels::{RoomPowerLevels, RoomPowerLevelsValues, UserPowerLevel};
use ruma::events::room::power_levels::{
    RoomPowerLevels as RumaPowerLevels, RoomPowerLevelsSource,
    UserPowerLevel as RumaUserPowerLevel,
};
use ruma::events::{
    MessageLikeEventType as RumaMessageLikeEventType, StateEventType as RumaStateEventType,
};
use ruma::room_version_rules::AuthorizationRules;
use ruma::{Int, UserId};

const ALICE: &str = "@alice:example.org";
const BOB: &str = "@bob:example.org";
const CAROL: &str = "@carol:example.org";

fn level_of(value: i64) -> Int {
    Int::try_from(value).unwrap()
}

fn ruma_levels(rules: &AuthorizationRules) -> RumaPowerLevels {
    let creators = vec![UserId::parse(ALICE).unwrap()];
    let mut levels = RumaPowerLevels::new(RoomPowerLevelsSource::None, rules, creators);
    levels.ban = level_of(60);
    levels.invite = level_of(10);
    levels.kick = level_of(55);
    levels.redact = level_of(30);
    levels.events_default = level_of(5);
    levels.state_default = level_of(45);
    levels.users_default = level_of(1);
    levels.notifications.room = level_of(20);
    levels.users.insert(UserId::parse(BOB).unwrap(), level_of(50));
    levels.events.insert("m.room.redaction".into(), level_of(40));
    levels.events.insert("m.room.name".into(), level_of(51));
    levels.events.insert("m.room.message".into(), level_of(0));
    levels
}

fn library_levels(levels: &RumaPowerLevels) -> RoomPowerLevels {
    RoomPowerLevels {
        ban: levels.ban.into(),
        invite: levels.invite.into(),
        kick: levels.kick.into(),
        redact: levels.redact.into(),
        events_default: levels.events_default.into(),
        state_default: levels.state_default.into(),
        users_default: levels.users_default.into(),
        room_notification: levels.notifications.room.into(),
        events: levels
            .events
            .iter()
            .map(|(event_type, level)| (event_type.to_string(), (*level).into()))
            .collect(),
        users: levels.users.iter().map(|(user, level)| (user.to_string(), (*level).into())).collect(),
        privileged_creators: levels
            .rules
            .privileged_creators
            .as_ref()
            .map(|creators| creators.iter().map(|user| user.to_string()).collect()),
    }
}

fn assert_same_answers(ruma: &RumaPowerLevels) {
    let levels = library_levels(ruma);
    for name in [ALICE, BOB, CAROL] {
        let user = UserId::parse(name).unwrap();
        let id = || name.to_owned();
        match (levels.for_user(name), ruma.for_user(&user)) {
            (UserPowerLevel::Infinite, RumaUserPowerLevel::Infinite) => {}
            (UserPowerLevel::Level(level), RumaUserPowerLevel::Int(expected)) => {
                assert_eq!(level, i64::from(expected));
            }
            _ => panic!("{name}"),
        }
        assert_eq!(levels.can_user_ban(id()).ok().unwrap(), ruma.user_can_ban(&user));
        assert_eq!(levels.can_user_invite(id()).ok().unwrap(), ruma.user_can_invite(&user));
        assert_eq!(levels.can_user_kick(id()).ok().unwrap(), ruma.user_can_kick(&user));
        assert_eq!(
            levels.can_user_redact_own(id()).ok().unwrap(),
            ruma.user_can_redact_own_event(&user)
        );
        assert_eq!(
            levels.can_user_redact_other(id()).ok().unwrap(),
            ruma.user_can_redact_event_of_other(&user)
        );
        assert_eq!(
            levels.can_user_send_state(id(), StateEventType::RoomName).ok().unwrap(),
            ruma.user_can_send_state(&user, RumaStateEventType::RoomName)
        );
        assert_eq!(
            levels.can_user_send_state(id(), StateEventType::RoomTopic).ok().unwrap(),
            ruma.user_can_send_state(&user, RumaStateEventType::RoomTopic)
        );
        assert_eq!(
            levels.can_user_send_message(id(), MessageLikeEventType::RoomMessage).ok().unwrap(),
            ruma.user_can_send_message(&user, RumaMessageLikeEventType::RoomMessage)
        );
        assert_eq!(
            levels.can_user_send_message(id(), MessageLikeEventType::Sticker).ok().unwrap(),
            ruma.user_can_send_message(&user, RumaMessageLikeEventType::Sticker)
        );
        assert_eq!(
            levels.can_user_pin_unpin(id()).ok().unwrap(),
            ruma.user_can_send_state(&user, RumaStateEventType::RoomPinnedEvents)
        );
        assert_eq!(
            levels.can_user_trigger_room_notification(id()).ok().unwrap(),
            ruma.user_can_trigger_room_notification(&user)
        );
    }
    for event_type in ["m.room.name", "m.room.message", "m.room.topic", "m.sticker"] {
        assert_eq!(levels.for_message(event_type), i64::from(ruma.for_message(event_type.into())));
        assert_eq!(levels.for_state(event_type), i64::from(ruma.for_state(event_type.into())));
    }
}

#[test]
fn users_can_do_what_ruma_says() {
    for rules in [AuthorizationRules::V1, AuthorizationRules::V11, AuthorizationRules::V12] {
        let mut levels = ruma_levels(&rules);
        assert_same_answers(&levels);
        for level in [-1, 0, 20, 40, 55, 60, 100] {
            levels.users_default = level_of(level);
            levels.redact = level_of(100 - level);
            assert_same_answers(&levels);
        }
    }
}

#[test]
fn levels_are_exact() {
    let levels = library_levels(&ruma_levels(&AuthorizationRules::V1));
    assert_eq!(levels.for_user(ALICE), UserPowerLevel::Level(100));
    assert_eq!(levels.for_user(BOB), UserPowerLevel::Level(50));
    assert_eq!(levels.for_user(CAROL), UserPowerLevel::Level(1));
    assert!(!levels.can_user_ban(BOB.to_owned()).ok().unwrap());
    assert!(levels.can_user_redact_other(BOB.to_owned()).ok().unwrap());
    assert!(!levels.can_user_redact_own(CAROL.to_owned()).ok().unwrap());
    assert_eq!(
        levels.values(),
        RoomPowerLevelsValues {
            ban: 60,
            invite: 10,
            kick: 55,
            redact: 30,
            events_default: 5,
            state_default: 45,
            users_default: 1,
            room_name: 51,
            room_avatar: 45,
            room_topic: 45,
        }
    );
}

#[test]
fn privileged_creator_can_do_anything() {
    let levels = library_levels(&ruma_levels(&AuthorizationRules::V12));
    assert_eq!(levels.for_user(ALICE), UserPowerLevel::Infinite);
    let mut strict = levels;
    strict.ban = i64::MAX;
    strict.state_default = i64::MAX;
    assert!(strict.can_user_ban(ALICE.to_owned()).ok().unwrap());
    assert!(strict.can_user_pin_unpin(ALICE.to_owned()).ok().unwrap());
    assert!(!strict.can_user_pin_unpin(BOB.to_owned()).ok().unwrap());
}

#[test]
fn users_are_named_by_their_identifiers() {
    let levels = library_levels(&ruma_levels(&AuthorizationRules::V1));
    let expected = UserId::parse("alice").unwrap_err();
    match levels.can_user_kick("alice".to_owned()) {
        Err(ClientError::Generic { msg, details }) => {
            assert_eq!(msg, expected.to_string());
            assert_eq!(details, Some(format!("{expected:?}")));
        }
        _ => panic!("the name is not a user ID"),
    }
    assert!(levels.can_user_send_state("alice".to_owned(), StateEventType::RoomName).is_err());
    assert!(levels
        .can_user_send_message("alice".to_owned(), MessageLikeEventType::RoomMessage)
        .is_err());
}
