use eyeball_im::{Vector, VectorDiff};
use matrix_sdk_ffi::duration::Duration;
use matrix_sdk_ffi::grouped_room_list::{GroupedRoomListItem, GroupedRoomListUpdate, SdkGroupedRoomListItem};
use matrix_sdk_ffi::list_update::{ListDiff, ListUpdate};
use matrix_sdk_ffi::live_location_share::{
    initial_update, observed_location, LiveLocationShareUpdate, SdkLiveLocationShare,
};
use matrix_sdk_ffi::room_directory_search::{
    first_update, loaded_pages, search_server, PublicRoomJoinRule, RoomDescription,
    RoomDirectorySearchEntryUpdate, SdkRoomDescription,
};
use matrix_sdk_ffi::room_list::{RoomListEntry, RoomListEntriesUpdate};

fn room_names(rooms: &[RoomListEntry<String>]) -> Vec<String> {
    rooms.iter().map(|entry| entry.room.clone()).collect()
}

/// What a list becomes that somebody keeps by following the updates.
fn follow(list: &mut Vec<RoomListEntry<String>>, update: RoomListEntriesUpdate<String>) {
    match update {
        ListUpdate::Append { values } => list.extend(values),
        ListUpdate::Clear => list.clear(),
        ListUpdate::PushFront { value } => list.insert(0, value),
        ListUpdate::PushBack { value } => list.push(value),
        ListUpdate::PopFront => {
            list.remove(0);
        }
        ListUpdate::PopBack => {
            list.pop();
        }
        ListUpdate::Insert { index, value } => list.insert(index as usize, value),
        ListUpdate::Replace { index, value } => list[index as usize] = value,
        ListUpdate::Remove { index } => {
            list.remove(index as usize);
        }
        ListUpdate::Truncate { length } => list.truncate(length as usize),
        ListUpdate::Reset { values } => *list = values,
    }
}

fn to_list_diff(diff: VectorDiff<String>) -> ListDiff<String> {
    match diff {
        VectorDiff::Append { values } => ListDiff::Append { values: values.into_iter().collect() },
        VectorDiff::Clear => ListDiff::Clear,
        VectorDiff::PushFront { value } => ListDiff::PushFront { value },
        VectorDiff::PushBack { value } => ListDiff::PushBack { value },
        VectorDiff::PopFront => ListDiff::PopFront,
        VectorDiff::PopBack => ListDiff::PopBack,
        VectorDiff::Insert { index, value } => ListDiff::Insert { index, value },
        VectorDiff::Set { index, value } => ListDiff::Replace { index, value },
        VectorDiff::Remove { index } => ListDiff::Remove { index },
        VectorDiff::Truncate { length } => ListDiff::Truncate { length },
        VectorDiff::Reset { values } => ListDiff::Reset { values: values.into_iter().collect() },
    }
}

#[test]
fn followers_keep_the_same_list() {
    let text = |text: &str| text.to_owned();
    let diffs = vec![
        VectorDiff::Append { values: Vector::from(vec![text("a"), text("b"), text("c")]) },
        VectorDiff::PushFront { value: text("d") },
        VectorDiff::PushBack { value: text("e") },
        VectorDiff::Insert { index: 2, value: text("f") },
        VectorDiff::Set { index: 0, value: text("g") },
        VectorDiff::Remove { index: 1 },
        VectorDiff::PopFront,
        VectorDiff::PopBack,
        VectorDiff::Truncate { length: 2 },
        VectorDiff::Reset { values: Vector::from(vec![text("h")]) },
        VectorDiff::Clear,
    ];
    let mut original: Vector<String> = Vector::new();
    let mut followed = vec![];
    for diff in diffs {
        let update: RoomListEntriesUpdate<String> = ListUpdate::from(to_list_diff(diff.clone()));
        diff.apply(&mut original);
        follow(&mut followed, update);
        assert_eq!(room_names(&followed), original.iter().cloned().collect::<Vec<_>>());
    }
}

fn description(join_rule: &str) -> SdkRoomDescription {
    SdkRoomDescription {
        room_id: "!a:b.c".to_owned(),
        name: Some("n".to_owned()),
        topic: None,
        alias: Some("#a:b.c".to_owned()),
        avatar_url: None,
        join_rule: join_rule.to_owned(),
        is_world_readable: true,
        joined_members: 7,
    }
}

#[test]
fn directories_describe_rooms() {
    let update: RoomDirectorySearchEntryUpdate =
        first_update(vec![description("knock"), description("private")]);
    match update {
        ListUpdate::Reset { values } => {
            assert_eq!(values.len(), 2);
            assert_eq!(values[0].room_id, "!a:b.c");
            assert_eq!(values[0].joined_members, 7);
            assert!(matches!(values[0].join_rule, Some(PublicRoomJoinRule::Knock)));
            assert!(values[1].join_rule.is_none());
        }
        _ => panic!(),
    }
    let update: ListUpdate<RoomDescription> =
        ListUpdate::from(ListDiff::Replace { index: 3, value: description("public") });
    assert!(matches!(update, ListUpdate::Replace { index: 3, ref value } if value.is_world_readable));
}

#[test]
fn join_rules_of_a_directory() {
    for (name, found) in [
        ("public", true),
        ("knock", true),
        ("restricted", true),
        ("knock_restricted", true),
        ("invite", true),
        ("private", false),
        ("odd", false),
    ] {
        assert_eq!(PublicRoomJoinRule::try_from(name).is_ok(), found, "{name}");
    }
}

#[test]
fn directories_are_searched() {
    assert!(matches!(search_server(None), Ok(None)));
    assert!(matches!(search_server(Some("b.c".to_owned())), Ok(Some(ref name)) if name == "b.c"));
    assert!(search_server(Some("not a server".to_owned())).is_err());
    assert_eq!(loaded_pages(5), 5);
}

fn share(last_location: Option<(String, u64)>) -> SdkLiveLocationShare {
    SdkLiveLocationShare {
        user_id: "@a:b.c".to_owned(),
        last_location,
        start_ts: 10,
        timeout: Duration::from_millis(2500),
        asset: None,
    }
}

#[test]
fn live_locations_are_told() {
    assert!(initial_update(vec![]).is_none());
    match initial_update(vec![share(None), share(Some(("geo:1,2".to_owned(), 11)))]) {
        Some(LiveLocationShareUpdate::Append { values })
        | Some(LiveLocationShareUpdate::Reset { values }) => {
            assert_eq!(values.len(), 2);
            assert!(values[0].last_location.is_none());
            let last = values[1].last_location.as_ref().unwrap();
            assert_eq!(last.location.geo_uri, "geo:1,2");
            assert_eq!(last.ts, 11);
            assert_eq!(values[1].start_ts, 10);
            assert_eq!(values[1].timeout, 2500);
        }
        _ => panic!(),
    }
    let observed = observed_location("@a:b.c".to_owned(), "geo:1,2".to_owned(), 5, Some(true));
    let observed = observed.unwrap();
    assert!(observed.is_live);
    assert_eq!(observed.user_id, "@a:b.c");
    assert_eq!(observed.last_location.ts, 5);
    assert!(observed_location("@a:b.c".to_owned(), "geo:1,2".to_owned(), 5, None).is_none());
}

#[test]
fn spaces_are_told_apart_from_rooms() {
    let update: GroupedRoomListUpdate<&str> = ListUpdate::from(ListDiff::Append {
        values: vec![SdkGroupedRoomListItem::Room("r"), SdkGroupedRoomListItem::Space("s", Some("t"))],
    });
    match update {
        ListUpdate::Append { values } => {
            assert!(matches!(values[0], GroupedRoomListItem::Room { room: "r" }));
            assert!(matches!(values[1], GroupedRoomListItem::Space { space: "s", room: Some("t") }));
        }
        _ => panic!(),
    }
}
