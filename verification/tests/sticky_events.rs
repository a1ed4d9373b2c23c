use std::collections::BTreeMap;

use matrix_sdk_ffi::sticky_events::{
    sticky_send, sticky_step, SdkStickyEventsUpdate, StickyEvent, StickyEventsUpdate, StickyKey,
    StickySignal, StickyStep, MAX_STICKY_DURATION_MS,
};

fn key(name: &str) -> StickyKey {
    StickyKey {
        sender: "@alice:example.org".to_owned(),
        event_type: "org.example.sticky".to_owned(),
        sticky_key: name.to_owned(),
    }
}

fn event(name: &str, event_id: &str) -> StickyEvent<u8> {
    StickyEvent {
        key: key(name),
        event_id: event_id.to_owned(),
        expires_at_ms: 60_000,
        event_json: "{}".to_owned(),
        encryption_info: None,
    }
}

fn update() -> SdkStickyEventsUpdate<u8, u8> {
    SdkStickyEventsUpdate {
        added: vec![event("a", "$1"), event("b", "$2")],
        updated: vec![event("a", "$3")],
        removed: vec![(key("c"), 1), (key("d"), 2)],
    }
}

type Live = BTreeMap<String, String>;

fn apply(live: &mut Live, update: &StickyEventsUpdate<u8, u8>) {
    match update {
        StickyEventsUpdate::Reset { events } => {
            live.clear();
            for event in events {
                live.insert(event.key.sticky_key.clone(), event.event_id.clone());
            }
        }
        StickyEventsUpdate::Changes { added, updated, removed } => {
            for event in added.iter().chain(updated) {
                live.insert(event.key.sticky_key.clone(), event.event_id.clone());
            }
            for removal in removed {
                live.remove(&removal.key.sticky_key);
            }
        }
    }
}

#[test]
fn changes_are_handed_on() {
    match StickyEventsUpdate::from(update()) {
        StickyEventsUpdate::Changes { added, updated, removed } => {
            assert_eq!(added.len(), 2);
            assert_eq!(added[1].event_id, "$2");
            assert_eq!(updated.len(), 1);
            assert_eq!(updated[0].event_id, "$3");
            assert_eq!(removed.len(), 2);
            assert_eq!(removed[0].key.sticky_key, "c");
            assert_eq!(removed[0].reason, 1);
            assert_eq!(removed[1].key.sticky_key, "d");
            assert_eq!(removed[1].reason, 2);
        }
        StickyEventsUpdate::Reset { .. } => panic!("the update is no reset"),
    }
}

#[test]
fn signals_are_followed() {
    assert!(matches!(
        sticky_step(StickySignal::Update(update())),
        StickyStep::Tell(StickyEventsUpdate::Changes { .. })
    ));
    assert!(matches!(sticky_step::<u8, u8>(StickySignal::Lagged), StickyStep::TellAll));
    assert!(matches!(sticky_step::<u8, u8>(StickySignal::Closed), StickyStep::Stop));
}

#[test]
fn update_can_be_applied_again() {
    let mut live = Live::new();
    live.insert("b".to_owned(), "$0".to_owned());
    live.insert("c".to_owned(), "$0".to_owned());
    let update = StickyEventsUpdate::from(update());
    apply(&mut live, &update);
    let once = live.clone();
    assert_eq!(once.get("a").map(String::as_str), Some("$3"));
    assert_eq!(once.len(), 2);
    apply(&mut live, &update);
    assert_eq!(live, once);
}

#[test]
fn sticky_events_last_an_hour_at_most() {
    let send = sticky_send("a".to_owned(), " { \"b\" : 1 } ".to_owned(), 5).ok().unwrap();
    assert_eq!(send.event_type, "a");
    assert_eq!(send.content, "{\"b\":1}");
    assert_eq!(send.duration_ms, 5);
    let send = sticky_send("a".to_owned(), "{}".to_owned(), MAX_STICKY_DURATION_MS + 1);
    assert_eq!(send.ok().unwrap().duration_ms, 3_600_000);
    let expected = serde_json::from_str::<serde_json::Value>("{").unwrap_err();
    let error = sticky_send("a".to_owned(), "{".to_owned(), 5).err().unwrap();
    assert_eq!(error.message, expected.to_string());
    assert_eq!(error.debug, format!("{expected:?}"));
}
