use matrix_sdk_ffi::event_filter::{
    all_filter_message_like_event_types, all_filter_state_event_types, FilterMessageLikeEventType,
    FilterStateEventType, FilterTimelineEventType, TimelineEventTypeFilter,
};
use ruma::events::TimelineEventType as RumaTimelineEventType;

fn message_like(event_type: FilterMessageLikeEventType) -> FilterTimelineEventType {
    FilterTimelineEventType::MessageLike { event_type }
}

fn state(event_type: FilterStateEventType) -> FilterTimelineEventType {
    FilterTimelineEventType::State { event_type }
}

#[test]
fn every_type_means_events_of_matrix() {
    let state_types = all_filter_state_event_types();
    assert_eq!(state_types.len(), 21);
    for event_type in &state_types {
        let name = event_type.event_type();
        assert!(!matches!(RumaTimelineEventType::from(name), RumaTimelineEventType::_Custom(_)));
        assert_eq!(RumaTimelineEventType::from(name).to_string(), name);
        assert_eq!(state(*event_type).event_type(), name);
    }
    let message_like_types = all_filter_message_like_event_types();
    assert_eq!(message_like_types.len(), 17);
    for event_type in &message_like_types {
        let name = event_type.event_type();
        assert!(!matches!(RumaTimelineEventType::from(name), RumaTimelineEventType::_Custom(_)));
        assert_eq!(RumaTimelineEventType::from(name).to_string(), name);
        assert_eq!(message_like(*event_type).event_type(), name);
    }
}

#[test]
fn types_mean_these_events() {
    assert_eq!(FilterStateEventType::RoomMember.event_type(), "m.room.member");
    assert_eq!(FilterStateEventType::RoomTopic.event_type(), "m.room.topic");
    assert_eq!(FilterStateEventType::RoomTombstone.event_type(), "m.room.topic");
    assert_eq!(FilterMessageLikeEventType::RoomMessage.event_type(), "m.room.message");
    assert_eq!(FilterMessageLikeEventType::Poll.event_type(), "m.policy.rule.user");
}

#[test]
fn filters_choose_by_type() {
    let types = || {
        vec![
            message_like(FilterMessageLikeEventType::RoomMessage),
            state(FilterStateEventType::RoomName),
        ]
    };
    let only = TimelineEventTypeFilter::Include { event_types: types() };
    let all_but = TimelineEventTypeFilter::Exclude { event_types: types() };
    for (name, is_listed) in [
        ("m.room.message", true),
        ("m.room.name", true),
        ("m.room.topic", false),
        ("m.reaction", false),
        ("org.example.odd", false),
        ("", false),
    ] {
        assert_eq!(only.filter(name), is_listed, "{name}");
        assert_eq!(all_but.filter(name), !is_listed, "{name}");
        assert_eq!(only.filter_canonical(name), is_listed, "{name}");
    }
    let nothing = TimelineEventTypeFilter::Include { event_types: vec![] };
    assert!(!nothing.filter("m.room.message"));
    let everything = TimelineEventTypeFilter::Exclude { event_types: vec![] };
    assert!(everything.filter("m.room.message"));
}
