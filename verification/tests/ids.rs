use matrix_sdk_ffi::error::ClientError;
use matrix_sdk_ffi::ids::{
    check_event_id, check_room_alias_id, check_room_id, check_room_or_alias_id,
    check_server_name, check_user_id, gen_transaction_id, keep_user_ids,
};
use ruma::{EventId, IdParseError, RoomAliasId, RoomId, RoomOrAliasId, ServerName, UserId};

fn assert_same<T>(checked: Result<(), ClientError>, parsed: Result<T, IdParseError>, id: &str) {
    match (checked, parsed) {
        (Ok(()), Ok(_)) => {}
        (Err(ClientError::Generic { msg, details }), Err(error)) => {
            assert_eq!(msg, error.to_string(), "{id}");
            assert_eq!(details, Some(format!("{error:?}")), "{id}");
        }
        _ => panic!("{id}"),
    }
}

#[test]
fn identifiers_are_checked_as_ruma_does() {
    let long = format!("@{}:example.org", "a".repeat(300));
    let ids = [
        "@alice:example.org",
        "!room:example.org",
        "!room",
        "#alias:example.org",
        "$event:example.org",
        "$event",
        "example.org",
        "example.org:8448",
        "@alice",
        "alice:example.org",
        "",
        "@:example.org",
        "#:example.org",
        "not a server",
        &long,
    ];
    for id in ids {
        assert_same(check_user_id(id), UserId::parse(id), id);
        assert_same(check_room_id(id), RoomId::parse(id), id);
        assert_same(check_event_id(id), EventId::parse(id), id);
        assert_same(check_room_alias_id(id), RoomAliasId::parse(id), id);
        assert_same(check_room_or_alias_id(id), RoomOrAliasId::parse(id), id);
        assert_same(check_server_name(id), ServerName::parse(id), id);
    }
    assert!(check_user_id("@alice:example.org").is_ok());
    assert!(check_user_id("alice").is_err());
    assert!(check_room_id("!room:example.org").is_ok());
    assert!(check_room_id("#alias:example.org").is_err());
    assert!(check_event_id("$event:example.org").is_ok());
    assert!(check_event_id("event").is_err());
    assert!(check_room_alias_id("#alias:example.org").is_ok());
    assert!(check_room_alias_id("!room:example.org").is_err());
    assert!(check_room_or_alias_id("#alias:example.org").is_ok());
    assert!(check_room_or_alias_id("@alice:example.org").is_err());
    assert!(check_server_name("example.org").is_ok());
    assert!(check_server_name("not a server").is_err());
}

#[test]
fn only_user_ids_are_kept() {
    let ids = ["@a:b.c", "nobody", "@d:e.f", ""].map(str::to_owned).to_vec();
    assert_eq!(keep_user_ids(&ids), ["@a:b.c", "@d:e.f"]);
}

#[test]
fn transaction_ids_are_hexadecimal() {
    let id = gen_transaction_id();
    assert_eq!(id.len(), 32);
    assert!(id.chars().all(|c| c.is_ascii_hexdigit() && !c.is_ascii_uppercase()));
    assert_ne!(id, gen_transaction_id());
}
