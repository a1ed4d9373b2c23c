use matrix_sdk_ffi::error::ClientError;
use matrix_sdk_ffi::event::{
    RoomMessageEventMessageType, SyncStateEvent, SyncTimelineEvent, TimelineEvent,
};
use matrix_sdk_ffi::event_filter::{
    FilterStateEventType, FilterTimelineEventType, TimelineEventTypeFilter,
};
use matrix_sdk_ffi::room::{
    check_aliases, check_invited_user, check_power_level_updates, check_server_names,
    check_user_ids, check_utd_hook, found_member, inviter, is_wanted_message, latest_event,
    matrix_to_room_alias_permalink, raw_content, set_thread_subscription, IncludeThreads,
    ListThreadsOptions, Membership, PreviewTarget, ThreadRoots, ThreadSubscriptionChange,
    TimelineFilter, UserPowerLevelUpdate,
};
use matrix_sdk_ffi::room_member::{
    matrix_to_user_permalink, MembershipState, RoomMember, RoomMemberRole, RoomMembersIterator,
    SdkRoomMember,
};
use ruma::{RoomAliasId, UserId};

fn member(user_id: &str, membership: &str) -> SdkRoomMember {
    SdkRoomMember {
        user_id: user_id.to_owned(),
        display_name: Some("Name".to_owned()),
        avatar_url: None,
        membership: membership.to_owned(),
        is_name_ambiguous: true,
        power_level: 50,
        normalized_power_level: 100,
        is_ignored: false,
        suggested_role_for_power_level: RoomMemberRole::Moderator,
    }
}

fn generic(error: ClientError) -> (String, Option<String>) {
    match error {
        ClientError::Generic { msg, details } => (msg, details),
        ClientError::MatrixApi { .. } => panic!("the error is not from the API"),
    }
}

#[test]
fn user_permalinks_are_those_of_ruma() {
    for user_id in ["@alice:example.org", "@a/b+c:example.org:8448", "@alice:[::1]"] {
        let expected = UserId::parse(user_id).unwrap().matrix_to_uri().to_string();
        assert_eq!(matrix_to_user_permalink(user_id.to_owned()).ok().unwrap(), expected);
    }
    assert_eq!(
        matrix_to_user_permalink("@alice:example.org".to_owned()).ok().unwrap(),
        "https://matrix.to/#/@alice:example.org"
    );
    let expected = UserId::parse("alice").unwrap_err();
    let (msg, details) = generic(matrix_to_user_permalink("alice".to_owned()).err().unwrap());
    assert_eq!(msg, expected.to_string());
    assert_eq!(details, Some(format!("{expected:?}")));
}

#[test]
fn room_alias_permalinks_are_those_of_ruma() {
    for alias in ["#room:example.org", "#a b/c:example.org"] {
        let expected = RoomAliasId::parse(alias).unwrap().matrix_to_uri().to_string();
        assert_eq!(matrix_to_room_alias_permalink(alias.to_owned()).ok().unwrap(), expected);
    }
    assert_eq!(
        matrix_to_room_alias_permalink("#room:example.org".to_owned()).ok().unwrap(),
        "https://matrix.to/#/%23room:example.org"
    );
    assert!(matrix_to_room_alias_permalink("room".to_owned()).is_err());
}

#[test]
fn memberships_go_by_their_names() {
    for (name, expected) in [
        ("ban", MembershipState::Ban),
        ("invite", MembershipState::Invite),
        ("join", MembershipState::Join),
        ("knock", MembershipState::Knock),
        ("leave", MembershipState::Leave),
    ] {
        assert_eq!(MembershipState::try_from(name).ok(), Some(expected));
    }
    assert!(MembershipState::try_from("other").is_err());
    assert_eq!(Membership::Invited.as_str(), "Invited");
    assert_eq!(Membership::Banned.as_str(), "Banned");
}

#[test]
fn members_are_found() {
    let found = RoomMember::found(Some(member("@alice:example.org", "join"))).ok().unwrap();
    assert_eq!(found.user_id, "@alice:example.org");
    assert_eq!(found.display_name.as_deref(), Some("Name"));
    assert_eq!(found.membership, MembershipState::Join);
    assert!(found.is_name_ambiguous);
    assert_eq!(found.power_level, 50);
    assert_eq!(found.normalized_power_level, 100);
    assert_eq!(found.suggested_role_for_power_level, RoomMemberRole::Moderator);
    assert_eq!(generic(RoomMember::found(None).err().unwrap()).0, "User not found");
    let unknown = RoomMember::found(Some(member("@alice:example.org", "other")));
    assert_eq!(
        generic(unknown.err().unwrap()).0,
        "Unknown state membership: not implemented yet"
    );
    assert_eq!(found_member(Some(1)).ok(), Some(1));
    assert_eq!(generic(found_member::<u8>(None).err().unwrap()).0, "User not found");
}

#[test]
fn members_come_in_chunks() {
    let members = vec![
        member("@a:example.org", "join"),
        member("@b:example.org", "other"),
        member("@c:example.org", "leave"),
    ];
    let mut iterator = RoomMembersIterator::new(members);
    assert_eq!(iterator.len(), 3);
    let chunk = iterator.next_chunk(2).unwrap();
    assert_eq!(chunk.len(), 1);
    assert_eq!(chunk[0].user_id, "@a:example.org");
    assert_eq!(iterator.len(), 1);
    let chunk = iterator.next_chunk(2).unwrap();
    assert_eq!(chunk.len(), 1);
    assert_eq!(chunk[0].membership, MembershipState::Leave);
    assert!(iterator.next_chunk(2).is_none());
}

#[test]
fn only_invitations_have_an_inviter() {
    assert_eq!(inviter(Membership::Invited, Some(1)), Some(1));
    assert_eq!(inviter(Membership::Joined, Some(1)), None);
    assert_eq!(inviter::<u8>(Membership::Invited, None), None);
}

#[test]
fn local_event_is_the_latest() {
    assert_eq!(latest_event(Some((1, true)), Some(2)), Some(1));
    assert_eq!(latest_event(Some((1, false)), Some(2)), Some(2));
    assert_eq!(latest_event(None, Some(2)), Some(2));
    assert_eq!(latest_event::<u8>(None, None), None);
}

#[test]
fn invited_users_and_lists_are_checked() {
    assert!(check_invited_user("@alice:example.org").is_ok());
    let (msg, _) = generic(check_invited_user("alice").err().unwrap());
    assert_eq!(
        msg,
        format!("Could not create user from string: {}", UserId::parse("alice").unwrap_err())
    );
    let user_ids = |names: &[&str]| names.iter().map(|name| name.to_string()).collect::<Vec<_>>();
    assert!(check_user_ids(&user_ids(&["@a:b.org", "@c:d.org"])).is_ok());
    assert!(check_user_ids(&user_ids(&["@a:b.org", "c"])).is_err());
    assert!(check_server_names(&user_ids(&["b.org", "d.org:1"])).is_ok());
    assert!(check_server_names(&user_ids(&["b.org", "no server"])).is_err());
    assert!(check_aliases(&Some("#a:b.org".to_owned()), &user_ids(&["#c:d.org"])).is_ok());
    assert!(check_aliases(&None, &user_ids(&["c"])).is_err());
    assert!(check_aliases(&Some("a".to_owned()), &user_ids(&[])).is_err());
}

#[test]
fn power_levels_have_to_be_safe() {
    let update = |user_id: &str, power_level| UserPowerLevelUpdate {
        user_id: user_id.to_owned(),
        power_level,
    };
    let max = 9_007_199_254_740_991;
    assert!(check_power_level_updates(&vec![update("@a:b.org", max)]).is_ok());
    let unsafe_level = vec![update("@a:b.org", 0), update("@c:d.org", max + 1)];
    let (msg, _) = generic(check_power_level_updates(&unsafe_level).err().unwrap());
    assert_eq!(msg, "Invalid power level");
    let unnamed = vec![update("a", max + 1)];
    let (msg, _) = generic(check_power_level_updates(&unnamed).err().unwrap());
    assert_eq!(msg, UserId::parse("a").unwrap_err().to_string());
}

#[test]
fn raw_content_is_compact() {
    assert_eq!(raw_content(" { \"a\" : [ 1 ] }").ok().unwrap(), "{\"a\":[1]}");
    let expected = serde_json::from_str::<serde_json::Value>("{").unwrap_err();
    let (msg, details) = generic(raw_content("{").err().unwrap());
    assert_eq!(msg, format!("Failed to parse JSON: {expected}"));
    assert_eq!(details, Some(format!("{expected:?}")));
}

#[test]
fn only_messages_of_the_types_are_wanted() {
    let types =
        || vec![RoomMessageEventMessageType::Image, RoomMessageEventMessageType::Other];
    assert!(is_wanted_message(true, &types(), Some("m.image")));
    assert!(is_wanted_message(true, &types(), Some("org.example.new")));
    assert!(!is_wanted_message(true, &types(), Some("m.text")));
    assert!(!is_wanted_message(false, &types(), Some("m.image")));
    assert!(!is_wanted_message(true, &types(), None));
}

#[test]
fn timelines_show_what_passes_their_filter() {
    let shows = |filter: &TimelineFilter, event_type, msgtype| {
        assert!(!filter.shows(false, event_type, msgtype));
        filter.shows(true, event_type, msgtype)
    };
    assert!(shows(&TimelineFilter::All, "m.room.name", None));
    let images = TimelineFilter::OnlyMessage { types: vec![RoomMessageEventMessageType::Image] };
    assert!(shows(&images, "m.room.message", Some("m.image")));
    assert!(!shows(&images, "m.room.message", Some("m.text")));
    assert!(!shows(&images, "m.room.message", None));
    let event_types = || {
        vec![FilterTimelineEventType::State { event_type: FilterStateEventType::RoomName }]
    };
    let names = TimelineEventTypeFilter::Include { event_types: event_types() };
    let names = TimelineFilter::EventFilter { filter: names };
    assert!(shows(&names, "m.room.name", None));
    assert!(!shows(&names, "m.room.message", Some("m.text")));
    let others = TimelineEventTypeFilter::Exclude { event_types: event_types() };
    let others = TimelineFilter::EventFilter { filter: others };
    assert!(!shows(&others, "m.room.name", None));
    assert!(shows(&others, "m.room.message", Some("m.text")));
}

#[test]
fn reports_need_a_hook() {
    assert!(check_utd_hook(true, true).is_ok());
    assert!(check_utd_hook(false, false).is_ok());
    let (msg, details) = generic(check_utd_hook(true, false).err().unwrap());
    assert_eq!(
        msg,
        "Failed creating timeline because the configuration is set to report UTDs but no hook \
         manager is set"
    );
    assert_eq!(details, None);
}

#[test]
fn threads_are_subscribed_to_by_their_roots() {
    assert_eq!(
        set_thread_subscription("$a:b.org", true).ok(),
        Some(ThreadSubscriptionChange::Subscribe)
    );
    assert_eq!(
        set_thread_subscription("$a:b.org", false).ok(),
        Some(ThreadSubscriptionChange::Unsubscribe)
    );
    assert!(set_thread_subscription("a", true).is_err());
}

#[test]
fn thread_requests_leave_out_unsafe_limits() {
    let options = |limit| ListThreadsOptions {
        include_threads: IncludeThreads::Participated,
        from: Some("token".to_owned()),
        limit,
    };
    let request = options(Some(20)).for_request();
    assert_eq!(request.include_threads, IncludeThreads::Participated);
    assert_eq!(request.from.as_deref(), Some("token"));
    assert_eq!(request.limit, Some(20));
    assert_eq!(options(Some(u64::MAX)).for_request().limit, None);
    assert_eq!(options(None).for_request().limit, None);
}

#[test]
fn thread_roots_are_the_events_that_were_read() {
    let event = |id: &str| TimelineEvent {
        id: id.to_owned(),
        sender: "@a:b.org".to_owned(),
        origin_server_ts: 1,
        event: SyncTimelineEvent::State { event: SyncStateEvent::RoomName },
    };
    let roots = ThreadRoots::new(vec![Some(event("$1")), None, Some(event("$2"))], None);
    assert_eq!(roots.chunk.len(), 2);
    assert_eq!(roots.chunk[0].id, "$1");
    assert_eq!(roots.chunk[1].id, "$2");
    assert_eq!(roots.prev_batch_token, None);
}

#[test]
fn previews_go_by_the_alias_and_the_servers() {
    let room = || "!room:example.org".to_owned();
    let via = |names: &[&str]| names.iter().map(|name| name.to_string()).collect::<Vec<_>>();
    let alias = Some("#room:example.org".to_owned());
    let target = PreviewTarget::new(room(), alias, via(&["a.org"])).ok().unwrap();
    assert_eq!(target.room_or_alias_id, "#room:example.org");
    let target = PreviewTarget::new(room(), None, via(&["a.org"])).ok().unwrap();
    assert_eq!(target.room_or_alias_id, "!room:example.org");
    assert_eq!(target.server_names, via(&["a.org"]));
    let target = target.with_inviter(Some("@alice:b.org".to_owned()));
    assert_eq!(target.server_names, via(&["a.org"]));
    let target = PreviewTarget::new(room(), None, via(&[])).ok().unwrap();
    let target = target.with_inviter(Some("@alice:b.org:8448".to_owned()));
    assert_eq!(target.server_names, via(&["b.org:8448"]));
    let target = PreviewTarget::new(room(), None, via(&[])).ok().unwrap();
    assert!(target.with_inviter(None).server_names.is_empty());
    assert!(PreviewTarget::new(room(), None, via(&["no server"])).is_err());
}
