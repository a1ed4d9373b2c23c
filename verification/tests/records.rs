use matrix_sdk_ffi::account_data::{
    AccountDataEventType, ObservedAccountData, RoomAccountDataEventType, RoomObservation,
};
use matrix_sdk_ffi::calls::{CallMemberIdentifier, RoomCall};
use matrix_sdk_ffi::element::{make_element_well_known, ElementCallWellKnown, ElementWellKnown};
use matrix_sdk_ffi::error::ClientError;
use matrix_sdk_ffi::json::JsonError;
use matrix_sdk_ffi::pusher::{
    HttpPusherData, PushFormat, PusherIdentifiers, PusherInit, PusherKind,
};
use matrix_sdk_ffi::rageshake::{
    archive_plan, sorted_trace_files, trace_file_prefix, TraceEntry,
};

fn http(default_payload: Option<&str>) -> PusherKind {
    PusherKind::Http {
        data: HttpPusherData {
            url: "https://example.org/push".to_owned(),
            format: Some(PushFormat::EventIdOnly),
            default_payload: default_payload.map(str::to_owned),
        },
    }
}

fn payload(kind: PusherKind) -> Option<String> {
    match kind {
        PusherKind::Http { data } => {
            assert_eq!(data.url, "https://example.org/push");
            assert!(matches!(data.format, Some(PushFormat::EventIdOnly)));
            data.default_payload
        }
        PusherKind::Email => panic!("the pusher is not for emails"),
    }
}

#[test]
fn payloads_of_pushers_are_json() {
    let checked = http(Some(" { \"a\" : 1 } ")).checked().ok().unwrap();
    assert_eq!(payload(checked).as_deref(), Some("{\"a\":1}"));
    assert_eq!(payload(http(None).checked().ok().unwrap()), None);
    let expected = serde_json::from_str::<serde_json::Value>("{").unwrap_err();
    assert!(matches!(
        http(Some("{")).checked(),
        Err(ClientError::Generic { msg, .. }) if msg == expected.to_string()
    ));
    assert!(matches!(PusherKind::Email.checked(), Ok(PusherKind::Email)));
    let init = |kind| PusherInit {
        identifiers: PusherIdentifiers { pushkey: "key".to_owned(), app_id: "app".to_owned() },
        kind,
        app_display_name: "App".to_owned(),
        device_display_name: "Phone".to_owned(),
        profile_tag: None,
        lang: "en".to_owned(),
    };
    let checked = init(http(Some("[ ]"))).checked().ok().unwrap();
    assert_eq!(checked.identifiers.pushkey, "key");
    assert_eq!(checked.lang, "en");
    assert_eq!(payload(checked.kind).as_deref(), Some("[]"));
    assert!(init(http(Some("{"))).checked().is_err());
}

#[test]
fn account_data_of_other_keys_is_not_told() {
    let observed = |key_id: Option<&str>| ObservedAccountData {
        key_id: key_id.map(str::to_owned),
        event: Some(1),
    };
    let key = AccountDataEventType::SecretStorageKey { key_id: "a".to_owned() };
    assert_eq!(key.told(observed(Some("a"))), Some(1));
    assert_eq!(key.told(observed(Some("b"))), None);
    assert_eq!(AccountDataEventType::Direct.told(observed(None)), Some(1));
    let unread = ObservedAccountData::<u8> { key_id: None, event: None };
    assert_eq!(AccountDataEventType::Direct.told(unread), None);
    assert_eq!(AccountDataEventType::Direct.observed_type(), "m.direct");
    assert_eq!(AccountDataEventType::IgnoredUserList.observed_type(), "m.ignored_user_list");
}

#[test]
fn room_account_data_is_told_with_its_room() {
    let room = || "!a:b.org".to_owned();
    let observation = RoomObservation::new(room(), RoomAccountDataEventType::Tag).ok().unwrap();
    assert_eq!(observation.event_type.observed_type(), "m.tag");
    assert_eq!(observation.told(Some(1)), Some((1, room())));
    assert_eq!(observation.told::<u8>(None), None);
    assert!(RoomObservation::new("a".to_owned(), RoomAccountDataEventType::Tag).is_err());
    assert_eq!(
        RoomAccountDataEventType::UnstableMarkedUnread.observed_type(),
        "com.famedly.marked_unread"
    );
}

#[test]
fn trace_files_come_in_order() {
    let entry = |name: &str, is_file| TraceEntry { name: name.to_owned(), is_file };
    let prefix = trace_file_prefix("app");
    assert_eq!(prefix, "app-trace");
    let entries = vec![
        entry("app-trace-3.json", true),
        entry("app-trace-1.json", true),
        entry("app-trace-2.log", true),
        entry("app-trace-2.json", false),
        entry("other-trace-1.json", true),
        entry("app-trace-10.json", true),
    ];
    assert_eq!(
        sorted_trace_files(&entries, &prefix),
        vec!["app-trace-1.json", "app-trace-10.json", "app-trace-3.json"]
    );
}

#[test]
fn full_archives_are_planned() {
    let files = |count: usize| (0..count).map(|i| format!("{i:04}")).collect::<Vec<_>>();
    assert!(archive_plan(&files(199), 5).is_empty());
    let plan = archive_plan(&files(450), 5);
    assert_eq!(plan.len(), 2);
    assert_eq!(plan[0].archive_name, "weechat-matrix-traces-5.tar");
    assert_eq!(plan[0].compressed_name, "weechat-matrix-traces-5.tar.zstd");
    assert_eq!(plan[1].archive_name, "weechat-matrix-traces-5-1.tar");
    assert_eq!(plan[1].compressed_name, "weechat-matrix-traces-5-1.tar.zstd");
    assert_eq!(plan[0].files, files(200));
    assert_eq!(plan[1].files, files(400)[200..].to_vec());
}

#[test]
fn calls_tell_their_members() {
    let call = RoomCall {
        start_time: 7,
        active_members: vec![CallMemberIdentifier {
            user_id: "@a:b.org".to_owned(),
            device_id: "D".to_owned(),
        }],
    };
    assert_eq!(call.start_time(), 7);
    let members = call.active_members();
    assert_eq!(members.len(), 1);
    assert_eq!(members[0].user_id, "@a:b.org");
    assert_eq!(members[0].device_id, "D");
}

#[test]
fn element_settings_are_read() {
    let settings = ElementWellKnown {
        call: Some(ElementCallWellKnown { widget_url: "https://call.example.org".to_owned() }),
        registration_helper_url: None,
    };
    let read = make_element_well_known(Ok(settings)).ok().unwrap();
    assert_eq!(read.call.unwrap().widget_url, "https://call.example.org");
    let error = JsonError { message: "no JSON".to_owned(), debug: "NoJson".to_owned() };
    assert!(matches!(
        make_element_well_known(Err(error)),
        Err(ClientError::Generic { msg, details })
            if msg == "no JSON" && details.as_deref() == Some("NoJson")
    ));
}
