use matrix_sdk_ffi::duration::Duration;
use matrix_sdk_ffi::ids::check_user_id;
use matrix_sdk_ffi::presence::{PresenceEvent, PresenceResponse, PresenceState, UserPresence};
use ruma::events::presence::PresenceEvent as RumaPresenceEvent;

fn read_event(json: &str) -> PresenceEvent {
    let event: RumaPresenceEvent = serde_json::from_str(json).unwrap();
    PresenceEvent {
        sender: event.sender.to_string(),
        presence: event.content.presence.to_string(),
        status_msg: event.content.status_msg,
        last_active_ago: event.content.last_active_ago.map(|ago| ago.into()),
        currently_active: event.content.currently_active,
    }
}

#[test]
fn maps_presence_without_inventing_optional_fields() {
    for (value, expected) in [
        ("online", PresenceState::Online),
        ("offline", PresenceState::Offline),
        ("unavailable", PresenceState::Unavailable),
    ] {
        let event = read_event(&format!(
            r#"{{"type": "m.presence", "sender": "@alice:example.org",
                "content": {{"presence": "{value}"}}}}"#
        ));
        let presence = UserPresence::from(event);
        assert_eq!(presence.user_id, "@alice:example.org");
        assert!(!matches!(presence.presence, PresenceState::Custom { .. }));
        assert_eq!(presence.presence.as_str(), expected.as_str());
        assert_eq!(presence.status_msg, None);
        assert!(presence.last_active_ago.is_none());
        assert_eq!(presence.currently_active, None);
    }
}

#[test]
fn optional_fields_are_kept() {
    let presence = UserPresence::from(read_event(
        r#"{"type": "m.presence", "sender": "@bob:example.org",
            "content": {"presence": "away", "status_msg": "Out", "last_active_ago": 1234,
                        "currently_active": false}}"#,
    ));
    assert_eq!(presence.user_id, "@bob:example.org");
    assert!(matches!(presence.presence, PresenceState::Custom { value } if value == "away"));
    assert_eq!(presence.status_msg.as_deref(), Some("Out"));
    let ago: Duration = presence.last_active_ago.unwrap();
    assert_eq!((ago.secs, ago.nanos), (1, 234_000_000));
    assert_eq!(ago.as_millis(), 1234);
    assert_eq!(presence.currently_active, Some(false));
}

#[test]
fn fetched_presence_is_of_the_user_asked_for() {
    let response = PresenceResponse {
        presence: "unavailable".to_owned(),
        status_msg: Some("Lunch".to_owned()),
        last_active_ago: Some(Duration { secs: 1, nanos: 500_000_000 }),
        currently_active: Some(true),
    };
    let presence = UserPresence::fetched("@alice:example.org".to_owned(), response);
    assert_eq!(presence.user_id, "@alice:example.org");
    assert!(matches!(presence.presence, PresenceState::Unavailable));
    assert_eq!(presence.status_msg.as_deref(), Some("Lunch"));
    assert_eq!(presence.last_active_ago.unwrap().as_millis(), 1500);
    assert_eq!(presence.currently_active, Some(true));
    assert!(check_user_id("alice").is_err());
}

#[test]
fn states_are_found_by_their_names() {
    for state in [PresenceState::Online, PresenceState::Offline, PresenceState::Unavailable] {
        let found = PresenceState::from(state.as_str());
        assert!(!matches!(found, PresenceState::Custom { .. }));
        assert_eq!(found.as_str(), state.as_str());
    }
    assert_eq!(PresenceState::from("away").as_str(), "away");
}
