use matrix_sdk_ffi::error::ClientError;
use matrix_sdk_ffi::event::{
    ContentError, EventOrTransactionId, MessageLikeEventContent, MessageLikeEventType,
    MessageType, Redaction, Relation, RoomMessage, RoomMessageEventMessageType, RtcNotification,
    StateEventContent, StateEventType, SyncMessageLikeEvent, SyncStateEvent, SyncTimelineEvent,
    TimelineEvent, TimelineEventContent, TimelineEventItemId, TimelineEventType,
};
use matrix_sdk_ffi::room_member::MembershipState;
use ruma::events::{
    MessageLikeEventType as RumaMessageLikeEventType, StateEventType as RumaStateEventType,
    TimelineEventType as RumaTimelineEventType,
};

fn message_like_types() -> Vec<(RumaTimelineEventType, RumaMessageLikeEventType, MessageLikeEventType)>
{
    vec![
        (
            RumaTimelineEventType::Audio,
            RumaMessageLikeEventType::Audio,
            MessageLikeEventType::Audio,
        ),
        (
            RumaTimelineEventType::File,
            RumaMessageLikeEventType::File,
            MessageLikeEventType::File,
        ),
        (
            RumaTimelineEventType::Image,
            RumaMessageLikeEventType::Image,
            MessageLikeEventType::Image,
        ),
        (
            RumaTimelineEventType::Video,
            RumaMessageLikeEventType::Video,
            MessageLikeEventType::Video,
        ),
        (
            RumaTimelineEventType::Voice,
            RumaMessageLikeEventType::Voice,
            MessageLikeEventType::Voice,
        ),
        (
            RumaTimelineEventType::Emote,
            RumaMessageLikeEventType::Emote,
            MessageLikeEventType::Emote,
        ),
        (
            RumaTimelineEventType::Encrypted,
            RumaMessageLikeEventType::Encrypted,
            MessageLikeEventType::Encrypted,
        ),
        (
            RumaTimelineEventType::RoomMessage,
            RumaMessageLikeEventType::RoomMessage,
            MessageLikeEventType::RoomMessage,
        ),
        (
            RumaTimelineEventType::CallAnswer,
            RumaMessageLikeEventType::CallAnswer,
            MessageLikeEventType::CallAnswer,
        ),
        (
            RumaTimelineEventType::CallInvite,
            RumaMessageLikeEventType::CallInvite,
            MessageLikeEventType::CallInvite,
        ),
        (
            RumaTimelineEventType::CallHangup,
            RumaMessageLikeEventType::CallHangup,
            MessageLikeEventType::CallHangup,
        ),
        (
            RumaTimelineEventType::CallCandidates,
            RumaMessageLikeEventType::CallCandidates,
            MessageLikeEventType::CallCandidates,
        ),
        (
            RumaTimelineEventType::CallNegotiate,
            RumaMessageLikeEventType::CallNegotiate,
            MessageLikeEventType::CallNegotiate,
        ),
        (
            RumaTimelineEventType::CallReject,
            RumaMessageLikeEventType::CallReject,
            MessageLikeEventType::CallReject,
        ),
        (
            RumaTimelineEventType::CallSdpStreamMetadataChanged,
            RumaMessageLikeEventType::CallSdpStreamMetadataChanged,
            MessageLikeEventType::CallSdpStreamMetadataChanged,
        ),
        (
            RumaTimelineEventType::CallSelectAnswer,
            RumaMessageLikeEventType::CallSelectAnswer,
            MessageLikeEventType::CallSelectAnswer,
        ),
        (
            RumaTimelineEventType::KeyVerificationReady,
            RumaMessageLikeEventType::KeyVerificationReady,
            MessageLikeEventType::KeyVerificationReady,
        ),
        (
            RumaTimelineEventType::KeyVerificationStart,
            RumaMessageLikeEventType::KeyVerificationStart,
            MessageLikeEventType::KeyVerificationStart,
        ),
        (
            RumaTimelineEventType::KeyVerificationCancel,
            RumaMessageLikeEventType::KeyVerificationCancel,
            MessageLikeEventType::KeyVerificationCancel,
        ),
        (
            RumaTimelineEventType::KeyVerificationAccept,
            RumaMessageLikeEventType::KeyVerificationAccept,
            MessageLikeEventType::KeyVerificationAccept,
        ),
        (
            RumaTimelineEventType::KeyVerificationKey,
            RumaMessageLikeEventType::KeyVerificationKey,
            MessageLikeEventType::KeyVerificationKey,
        ),
        (
            RumaTimelineEventType::KeyVerificationMac,
            RumaMessageLikeEventType::KeyVerificationMac,
            MessageLikeEventType::KeyVerificationMac,
        ),
        (
            RumaTimelineEventType::KeyVerificationDone,
            RumaMessageLikeEventType::KeyVerificationDone,
            MessageLikeEventType::KeyVerificationDone,
        ),
        (
            RumaTimelineEventType::Location,
            RumaMessageLikeEventType::Location,
            MessageLikeEventType::Location,
        ),
        (
            RumaTimelineEventType::Message,
            RumaMessageLikeEventType::Message,
            MessageLikeEventType::Message,
        ),
        (
            RumaTimelineEventType::PollStart,
            RumaMessageLikeEventType::PollStart,
            MessageLikeEventType::PollStart,
        ),
        (
            RumaTimelineEventType::UnstablePollStart,
            RumaMessageLikeEventType::UnstablePollStart,
            MessageLikeEventType::UnstablePollStart,
        ),
        (
            RumaTimelineEventType::PollResponse,
            RumaMessageLikeEventType::PollResponse,
            MessageLikeEventType::PollResponse,
        ),
        (
            RumaTimelineEventType::UnstablePollResponse,
            RumaMessageLikeEventType::UnstablePollResponse,
            MessageLikeEventType::UnstablePollResponse,
        ),
        (
            RumaTimelineEventType::PollEnd,
            RumaMessageLikeEventType::PollEnd,
            MessageLikeEventType::PollEnd,
        ),
        (
            RumaTimelineEventType::UnstablePollEnd,
            RumaMessageLikeEventType::UnstablePollEnd,
            MessageLikeEventType::UnstablePollEnd,
        ),
        (
            RumaTimelineEventType::Beacon,
            RumaMessageLikeEventType::Beacon,
            MessageLikeEventType::Beacon,
        ),
        (
            RumaTimelineEventType::Reaction,
            RumaMessageLikeEventType::Reaction,
            MessageLikeEventType::Reaction,
        ),
        (
            RumaTimelineEventType::RoomEncrypted,
            RumaMessageLikeEventType::RoomEncrypted,
            MessageLikeEventType::RoomEncrypted,
        ),
        (
            RumaTimelineEventType::RoomRedaction,
            RumaMessageLikeEventType::RoomRedaction,
            MessageLikeEventType::RoomRedaction,
        ),
        (
            RumaTimelineEventType::Sticker,
            RumaMessageLikeEventType::Sticker,
            MessageLikeEventType::Sticker,
        ),
        (
            RumaTimelineEventType::CallNotify,
            RumaMessageLikeEventType::CallNotify,
            MessageLikeEventType::CallNotify,
        ),
        (
            RumaTimelineEventType::RtcNotification,
            RumaMessageLikeEventType::RtcNotification,
            MessageLikeEventType::RtcNotification,
        ),
        (
            RumaTimelineEventType::RtcDecline,
            RumaMessageLikeEventType::RtcDecline,
            MessageLikeEventType::RtcDecline,
        ),
    ]
}

fn state_types() -> Vec<(RumaTimelineEventType, RumaStateEventType, StateEventType)> {
    vec![
        (RumaTimelineEventType::PolicyRuleRoom, RumaStateEventType::PolicyRuleRoom, StateEventType::PolicyRuleRoom),
        (RumaTimelineEventType::PolicyRuleServer, RumaStateEventType::PolicyRuleServer, StateEventType::PolicyRuleServer),
        (RumaTimelineEventType::PolicyRuleUser, RumaStateEventType::PolicyRuleUser, StateEventType::PolicyRuleUser),
        (RumaTimelineEventType::RoomAliases, RumaStateEventType::RoomAliases, StateEventType::RoomAliases),
        (RumaTimelineEventType::RoomAvatar, RumaStateEventType::RoomAvatar, StateEventType::RoomAvatar),
        (RumaTimelineEventType::RoomCanonicalAlias, RumaStateEventType::RoomCanonicalAlias, StateEventType::RoomCanonicalAlias),
        (RumaTimelineEventType::RoomCreate, RumaStateEventType::RoomCreate, StateEventType::RoomCreate),
        (RumaTimelineEventType::RoomEncryption, RumaStateEventType::RoomEncryption, StateEventType::RoomEncryption),
        (RumaTimelineEventType::RoomGuestAccess, RumaStateEventType::RoomGuestAccess, StateEventType::RoomGuestAccess),
        (RumaTimelineEventType::RoomHistoryVisibility, RumaStateEventType::RoomHistoryVisibility, StateEventType::RoomHistoryVisibility),
        (RumaTimelineEventType::RoomJoinRules, RumaStateEventType::RoomJoinRules, StateEventType::RoomJoinRules),
        (RumaTimelineEventType::RoomMember, RumaStateEventType::RoomMember, StateEventType::RoomMemberEvent),
        (RumaTimelineEventType::RoomLanguage, RumaStateEventType::RoomLanguage, StateEventType::RoomLanguage),
        (RumaTimelineEventType::RoomName, RumaStateEventType::RoomName, StateEventType::RoomName),
        (RumaTimelineEventType::RoomImagePack, RumaStateEventType::RoomImagePack, StateEventType::RoomImagePack),
        (RumaTimelineEventType::RoomPinnedEvents, RumaStateEventType::RoomPinnedEvents, StateEventType::RoomPinnedEvents),
        (RumaTimelineEventType::RoomPowerLevels, RumaStateEventType::RoomPowerLevels, StateEventType::RoomPowerLevels),
        (RumaTimelineEventType::RoomServerAcl, RumaStateEventType::RoomServerAcl, StateEventType::RoomServerAcl),
        (RumaTimelineEventType::RoomThirdPartyInvite, RumaStateEventType::RoomThirdPartyInvite, StateEventType::RoomThirdPartyInvite),
        (RumaTimelineEventType::RoomTombstone, RumaStateEventType::RoomTombstone, StateEventType::RoomTombstone),
        (RumaTimelineEventType::RoomTopic, RumaStateEventType::RoomTopic, StateEventType::RoomTopic),
        (RumaTimelineEventType::SpaceChild, RumaStateEventType::SpaceChild, StateEventType::SpaceChild),
        (RumaTimelineEventType::SpaceParent, RumaStateEventType::SpaceParent, StateEventType::SpaceParent),
        (RumaTimelineEventType::BeaconInfo, RumaStateEventType::BeaconInfo, StateEventType::BeaconInfo),
        (RumaTimelineEventType::CallMember, RumaStateEventType::CallMember, StateEventType::CallMember),
        (RumaTimelineEventType::MemberHints, RumaStateEventType::MemberHints, StateEventType::MemberHints),
    ]
}

#[test]
fn types_are_those_of_ruma() {
    for (timeline_type, ruma_type, event_type) in message_like_types() {
        assert_eq!(
            TimelineEventType::from(&timeline_type.to_string()),
            TimelineEventType::MessageLike { value: event_type.clone() }
        );
        assert_eq!(event_type.into_event_type(), ruma_type.to_string());
    }
    for (timeline_type, ruma_type, event_type) in state_types() {
        assert_eq!(
            TimelineEventType::from(&timeline_type.to_string()),
            TimelineEventType::State { value: event_type.clone() }
        );
        assert_eq!(event_type.into_event_type(), ruma_type.to_string());
    }
}

#[test]
fn stable_names_stand_for_the_same_types() {
    // The name that is given and the one that is written need not be the same.
    for name in ["m.beacon", "m.beacon_info", "m.call.member", "m.rtc.notification"] {
        let canonical = RumaTimelineEventType::from(name);
        assert_eq!(TimelineEventType::from(name), TimelineEventType::from(&canonical.to_string()));
    }
    assert_eq!(
        TimelineEventType::from("org.matrix.msc3672.beacon_info"),
        TimelineEventType::State { value: StateEventType::BeaconInfo }
    );
    assert_eq!(
        TimelineEventType::from("m.beacon_info"),
        TimelineEventType::State { value: StateEventType::BeaconInfo }
    );
}

#[test]
fn unknown_types_are_custom_state() {
    assert_eq!(
        TimelineEventType::from("org.example.odd"),
        TimelineEventType::State {
            value: StateEventType::Custom { value: "org.example.odd".to_owned() }
        }
    );
    assert_eq!(
        TimelineEventType::from_canonical("org.example.odd".to_owned(), true),
        TimelineEventType::MessageLike {
            value: MessageLikeEventType::Other("org.example.odd".to_owned())
        }
    );
    let custom = StateEventType::Custom { value: "org.example.odd".to_owned() };
    assert_eq!(custom.into_event_type(), "org.example.odd");
    let other = MessageLikeEventType::Other("org.example.odd".to_owned());
    assert_eq!(other.into_event_type(), "org.example.odd");

    // Names that are written in another way.
    for name in ["m.beacon", "m.beacon_info"] {
        let custom = StateEventType::Custom { value: name.to_owned() };
        assert_eq!(custom.into_event_type(), RumaStateEventType::from(name).to_string());
        let other = MessageLikeEventType::Other(name.to_owned());
        assert_eq!(other.into_event_type(), RumaMessageLikeEventType::from(name).to_string());
    }
    let custom = StateEventType::Custom { value: "m.beacon_info".to_owned() };
    assert_eq!(custom.into_event_type(), "org.matrix.msc3672.beacon_info");
    let other = MessageLikeEventType::Other("m.beacon".to_owned());
    assert_eq!(other.into_event_type(), "org.matrix.msc3672.beacon");
}

fn timeline_event(event: SyncTimelineEvent) -> TimelineEvent {
    TimelineEvent {
        id: "$e".to_owned(),
        sender: "@a:b.c".to_owned(),
        origin_server_ts: 17,
        event,
    }
}

fn message_like(event: SyncMessageLikeEvent) -> TimelineEvent {
    timeline_event(SyncTimelineEvent::MessageLike { event, relation: None })
}

fn error_text(event: &TimelineEvent) -> String {
    match event.content() {
        Err(ClientError::Generic { msg, details }) => {
            assert_eq!(details.as_deref(), Some(msg.as_str()));
            msg
        }
        _ => panic!(),
    }
}

#[test]
fn events_tell_who_and_when() {
    let event = message_like(SyncMessageLikeEvent::Sticker);
    assert_eq!(event.event_id(), "$e");
    assert_eq!(event.sender_id(), "@a:b.c");
    assert_eq!(event.timestamp(), 17);
    assert!(matches!(
        event.content(),
        Ok(TimelineEventContent::MessageLike { content: MessageLikeEventContent::Sticker })
    ));
    assert_eq!(event.thread_root_event_id(), None);
}

#[test]
fn redacted_events_have_no_content() {
    let redacted = [
        message_like(SyncMessageLikeEvent::Reaction { related_event_id: None }),
        message_like(SyncMessageLikeEvent::UnstablePollStart { question: None }),
        message_like(SyncMessageLikeEvent::RoomMessage { content: None }),
        message_like(SyncMessageLikeEvent::RtcNotification { content: None }),
        timeline_event(SyncTimelineEvent::State {
            event: SyncStateEvent::RoomTopic { topic: None },
        }),
        timeline_event(SyncTimelineEvent::State {
            event: SyncStateEvent::RoomMember { state_key: "@a:b.c".to_owned(), membership: None },
        }),
    ];
    for event in redacted {
        assert_eq!(error_text(&event), "Failed to get original content");
    }
}

#[test]
fn unsupported_events_are_refused() {
    let state = timeline_event(SyncTimelineEvent::State {
        event: SyncStateEvent::Other { event_type: "a\"b".to_owned() },
    });
    assert_eq!(error_text(&state), "Unsupported state event: \"a\\\"b\"");
    let message = message_like(SyncMessageLikeEvent::Other { event_type: "x".to_owned() });
    assert_eq!(error_text(&message), "Unsupported Event Type: \"x\"");
    assert_eq!(ContentError::UnknownMembership.to_string(), "not implemented yet");
}

#[test]
fn state_events_are_shown() {
    let event = SyncStateEvent::RoomTopic { topic: Some("t".to_owned()) };
    assert!(matches!(
        StateEventContent::try_from(&event),
        Ok(StateEventContent::RoomTopic { ref topic }) if topic == "t"
    ));
    let event = SyncStateEvent::RoomMember {
        state_key: "@a:b.c".to_owned(),
        membership: Some("join".to_owned()),
    };
    assert!(matches!(
        StateEventContent::try_from(&event),
        Ok(StateEventContent::RoomMemberContent { ref user_id, membership_state: MembershipState::Join })
            if user_id == "@a:b.c"
    ));
    assert!(matches!(
        StateEventContent::try_from(&SyncStateEvent::RoomName),
        Ok(StateEventContent::RoomName)
    ));
}

#[test]
fn messages_are_shown() {
    let message_type = || MessageType { msgtype: "m.text".to_owned(), body: "hi".to_owned() };
    let reply = SyncMessageLikeEvent::RoomMessage {
        content: Some(RoomMessage {
            message_type: Ok(message_type()),
            relates_to: Some(Relation::Reply { in_reply_to: "$r".to_owned() }),
        }),
    };
    match MessageLikeEventContent::try_from(&reply) {
        Ok(MessageLikeEventContent::RoomMessage { message_type, in_reply_to_event_id }) => {
            assert_eq!(message_type.body, "hi");
            assert_eq!(in_reply_to_event_id, Some("$r".to_owned()));
        }
        _ => panic!(),
    }

    let thread = SyncMessageLikeEvent::RoomMessage {
        content: Some(RoomMessage {
            message_type: Ok(message_type()),
            relates_to: Some(Relation::Thread { event_id: "$t".to_owned() }),
        }),
    };
    assert!(matches!(
        MessageLikeEventContent::try_from(&thread),
        Ok(MessageLikeEventContent::RoomMessage { in_reply_to_event_id: None, .. })
    ));
    let event = timeline_event(SyncTimelineEvent::MessageLike {
        event: thread,
        relation: Some(Relation::Thread { event_id: "$t".to_owned() }),
    });
    assert_eq!(event.thread_root_event_id(), Some("$t".to_owned()));

    let odd = SyncMessageLikeEvent::RoomMessage {
        content: Some(RoomMessage { message_type: Err("odd".to_owned()), relates_to: None }),
    };
    assert!(matches!(
        MessageLikeEventContent::try_from(&odd),
        Err(ContentError::MessageType { ref message }) if message == "odd"
    ));
}

#[test]
fn redactions_name_the_event() {
    let redaction = |content_redacts: Option<&str>, redacts: Option<&str>| {
        let event = SyncMessageLikeEvent::RoomRedaction {
            content: Some(Redaction {
                content_redacts: content_redacts.map(str::to_owned),
                redacts: redacts.map(str::to_owned),
                reason: Some("spam".to_owned()),
            }),
        };
        match MessageLikeEventContent::try_from(&event) {
            Ok(MessageLikeEventContent::RoomRedaction { redacted_event_id, reason }) => {
                assert_eq!(reason, Some("spam".to_owned()));
                redacted_event_id
            }
            _ => panic!(),
        }
    };
    assert_eq!(redaction(Some("$a"), Some("$b")), Some("$a".to_owned()));
    assert_eq!(redaction(None, Some("$b")), Some("$b".to_owned()));
    assert_eq!(redaction(None, None), None);
    assert!(matches!(
        MessageLikeEventContent::try_from(&SyncMessageLikeEvent::RoomRedaction { content: None }),
        Ok(MessageLikeEventContent::RoomRedaction { redacted_event_id: None, reason: None })
    ));
}

#[test]
fn call_notifications_expire() {
    let expiration = |sender_ts, lifetime, origin_server_ts| {
        let event = SyncMessageLikeEvent::RtcNotification {
            content: Some(RtcNotification {
                notification_type: "ring".to_owned(),
                sender_ts,
                lifetime,
                origin_server_ts,
            }),
        };
        match MessageLikeEventContent::try_from(&event) {
            Ok(MessageLikeEventContent::RtcNotification { notification_type, expiration_ts }) => {
                assert_eq!(notification_type, "ring");
                expiration_ts
            }
            _ => panic!(),
        }
    };
    // The clocks are close: the time of the sender counts.
    assert_eq!(expiration(1_000_000, 30_000, 1_020_000), 1_030_000);
    assert_eq!(expiration(1_000_000, 30_000, 980_000), 1_030_000);
    // They are not: the time of the homeserver counts.
    assert_eq!(expiration(1_000_000, 30_000, 1_020_001), 1_050_001);
    assert_eq!(expiration(1_000_000, 30_000, 979_999), 1_009_999);
    // The lifetime wraps, and the sum does not.
    assert_eq!(expiration(5, (1 << 32) + 7, 5), 12);
    let max: u64 = (1 << 53) - 1;
    assert_eq!(expiration(max, 30_000, max), max);
}

#[test]
fn kinds_of_messages() {
    for (name, kind) in [
        ("m.audio", RoomMessageEventMessageType::Audio),
        ("m.emote", RoomMessageEventMessageType::Emote),
        ("m.file", RoomMessageEventMessageType::File),
        ("m.image", RoomMessageEventMessageType::Image),
        ("m.location", RoomMessageEventMessageType::Location),
        ("m.notice", RoomMessageEventMessageType::Notice),
        ("m.server_notice", RoomMessageEventMessageType::ServerNotice),
        ("m.text", RoomMessageEventMessageType::Text),
        ("m.video", RoomMessageEventMessageType::Video),
        ("m.key.verification.request", RoomMessageEventMessageType::VerificationRequest),
        ("org.example.odd", RoomMessageEventMessageType::Other),
    ] {
        assert_eq!(RoomMessageEventMessageType::from(name), kind);
    }
}

#[test]
fn items_are_identified() {
    assert!(EventOrTransactionId::EventId { event_id: "$e:b.c".to_owned() }.check().is_ok());
    assert!(EventOrTransactionId::EventId { event_id: "e".to_owned() }.check().is_err());
    let transaction = EventOrTransactionId::TransactionId { transaction_id: "e".to_owned() };
    assert!(transaction.check().is_ok());
}

#[test]
fn identifiers_and_items_convert_both_ways() {
    let item = TimelineEventItemId::try_from(EventOrTransactionId::EventId {
        event_id: "$e:b.c".to_owned(),
    });
    let Ok(item) = item else { panic!("an event ID is accepted") };
    assert!(matches!(item, TimelineEventItemId::EventId(ref id) if id == "$e:b.c"));
    assert!(matches!(
        EventOrTransactionId::from(item),
        EventOrTransactionId::EventId { event_id } if event_id == "$e:b.c"
    ));

    let item = TimelineEventItemId::try_from(EventOrTransactionId::TransactionId {
        transaction_id: "not an event".to_owned(),
    });
    let Ok(item) = item else { panic!("any text is a transaction ID") };
    assert!(matches!(item, TimelineEventItemId::TransactionId(ref id) if id == "not an event"));
    assert!(matches!(
        EventOrTransactionId::from(item),
        EventOrTransactionId::TransactionId { transaction_id } if transaction_id == "not an event"
    ));

    let refused = TimelineEventItemId::try_from(EventOrTransactionId::EventId {
        event_id: "e".to_owned(),
    });
    let Err(error) = refused else { panic!("an event ID begins with a dollar sign") };
    assert_eq!(error.message, "leading sigil is incorrect or missing");
    assert_eq!(error.debug, "MissingLeadingSigil");
}

#[test]
fn every_name_of_a_type_leads_back_to_its_type() {
    for (name, written) in [
        ("m.beacon_info", "org.matrix.msc3672.beacon_info"),
        ("m.room.topic", "m.room.topic"),
        ("com.example.custom", "com.example.custom"),
        ("m.voice", "org.matrix.msc3245.voice.v2"),
        ("m.room.message", "m.room.message"),
    ] {
        let back = match TimelineEventType::from(name) {
            TimelineEventType::MessageLike { value } => value.into_event_type(),
            TimelineEventType::State { value } => value.into_event_type(),
        };
        assert_eq!(back, written);
    }
    assert_eq!(
        MessageLikeEventType::Other("com.example.custom".to_owned()).into_event_type(),
        "com.example.custom"
    );
}
