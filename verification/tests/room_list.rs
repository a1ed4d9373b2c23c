use matrix_sdk_ffi::room::Membership;
use matrix_sdk_ffi::room_list::{
    check_listed_room, check_subscribed_rooms, RoomFilter, RoomListEntriesDynamicFilterKind,
    RoomListError, RoomListFilterCategory, SdkRoomListError, UnreadNotificationsCount,
};
use ruma::RoomId;

#[test]
fn room_list_errors_have_texts() {
    let text = |error| RoomListError::from(error).to_string();
    assert_eq!(
        text(SdkRoomListError::SlidingSync { message: "a".to_owned() }),
        "sliding sync error: a"
    );
    assert_eq!(
        text(SdkRoomListError::UnknownList { list_name: "a".to_owned() }),
        "unknown list `a`"
    );
    assert_eq!(
        text(SdkRoomListError::RoomNotFound { room_id: "!a:b.org".to_owned() }),
        "room `!a:b.org` not found"
    );
    assert_eq!(
        text(SdkRoomListError::EventCache { message: "a".to_owned() }),
        "Event cache ran into an error: a"
    );
    assert_eq!(RoomListError::InputCannotBeApplied.to_string(), "input cannot be applied");
    let membership = |expected| RoomListError::IncorrectRoomMembership {
        expected,
        actual: Membership::Left,
    };
    assert_eq!(
        membership(vec![Membership::Invited, Membership::Knocked]).to_string(),
        "The requested room doesn't match the membership requirements [Invited, Knocked], \
         observed Left"
    );
}

#[test]
fn rooms_are_named_by_their_identifiers() {
    assert!(check_listed_room("!a:b.org").is_ok());
    let expected = RoomId::parse("a").unwrap_err().to_string();
    let error = check_listed_room("a").err().unwrap();
    assert!(matches!(&error, RoomListError::InvalidRoomId { error } if *error == expected));
    assert_eq!(error.to_string(), format!("invalid room ID: {expected}"));
    assert!(check_subscribed_rooms(&vec!["!a:b.org".to_owned()]).is_ok());
    let rooms = vec!["!a:b.org".to_owned(), "a".to_owned()];
    assert!(matches!(
        check_subscribed_rooms(&rooms),
        Err(RoomListError::InvalidRoomId { .. })
    ));
}

fn holds(filter: &RoomFilter, is_space: bool, is_favourite: bool) -> bool {
    match filter {
        RoomFilter::All { filters } => {
            filters.iter().all(|filter| holds(filter, is_space, is_favourite))
        }
        RoomFilter::Any { filters } => {
            filters.iter().any(|filter| holds(filter, is_space, is_favourite))
        }
        RoomFilter::Not { filter } => !holds(filter, is_space, is_favourite),
        RoomFilter::Space => is_space,
        RoomFilter::Favourite => is_favourite,
        _ => false,
    }
}

fn filter(kind: RoomListEntriesDynamicFilterKind) -> RoomFilter {
    RoomFilter::try_from(&kind).unwrap()
}

#[test]
fn negative_filters_are_the_others() {
    for is_space in [false, true] {
        for is_favourite in [false, true] {
            let meets = |kind| holds(&filter(kind), is_space, is_favourite);
            assert_eq!(meets(RoomListEntriesDynamicFilterKind::Space), is_space);
            assert_eq!(meets(RoomListEntriesDynamicFilterKind::NonSpace), !is_space);
            assert_eq!(meets(RoomListEntriesDynamicFilterKind::Favourite), is_favourite);
            assert_eq!(meets(RoomListEntriesDynamicFilterKind::NonFavorite), !is_favourite);
            let all = RoomListEntriesDynamicFilterKind::All {
                filters: vec![
                    RoomListEntriesDynamicFilterKind::NonSpace,
                    RoomListEntriesDynamicFilterKind::Favourite,
                ],
            };
            assert_eq!(meets(all), !is_space && is_favourite);
            let any = RoomListEntriesDynamicFilterKind::Any {
                filters: vec![
                    RoomListEntriesDynamicFilterKind::Space,
                    RoomListEntriesDynamicFilterKind::NonFavorite,
                ],
            };
            assert_eq!(meets(any), is_space || !is_favourite);
        }
    }
    assert!(matches!(
        filter(RoomListEntriesDynamicFilterKind::NonLowPriority),
        RoomFilter::Not { filter } if matches!(*filter, RoomFilter::LowPriority)
    ));
}

#[test]
fn filters_are_kept() {
    assert!(matches!(
        filter(RoomListEntriesDynamicFilterKind::FuzzyMatchRoomName { pattern: "a".to_owned() }),
        RoomFilter::FuzzyMatchRoomName { pattern } if pattern == "a"
    ));
    assert!(matches!(
        filter(RoomListEntriesDynamicFilterKind::NormalizedMatchRoomName {
            pattern: "a".to_owned()
        }),
        RoomFilter::NormalizedMatchRoomName { pattern } if pattern == "a"
    ));
    assert!(matches!(
        filter(RoomListEntriesDynamicFilterKind::Category {
            expect: RoomListFilterCategory::People
        }),
        RoomFilter::Category { expect: RoomListFilterCategory::People }
    ));
    assert!(matches!(filter(RoomListEntriesDynamicFilterKind::NoRoom), RoomFilter::NoRoom));
    assert!(matches!(filter(RoomListEntriesDynamicFilterKind::NonLeft), RoomFilter::NonLeft));
    assert!(matches!(filter(RoomListEntriesDynamicFilterKind::Joined), RoomFilter::Joined));
    assert!(matches!(filter(RoomListEntriesDynamicFilterKind::Unread), RoomFilter::Unread));
    assert!(matches!(filter(RoomListEntriesDynamicFilterKind::Invite), RoomFilter::Invite));
    assert!(matches!(
        filter(RoomListEntriesDynamicFilterKind::DeduplicateVersions),
        RoomFilter::DeduplicateVersions
    ));
}

#[test]
fn filtered_rooms_are_named_by_their_identifiers() {
    let kind = |names: &[&str]| RoomListEntriesDynamicFilterKind::Identifiers {
        identifiers: names.iter().map(|name| name.to_string()).collect(),
    };
    assert!(matches!(
        filter(kind(&["!a:b.org", "!c:d.org"])),
        RoomFilter::Identifiers { identifiers } if identifiers.len() == 2
    ));
    assert!(RoomFilter::try_from(&kind(&["!a:b.org", "c"])).is_none());
}

#[test]
fn large_unread_counts_are_no_counts() {
    let counts = UnreadNotificationsCount::from(Some(2), Some(u64::from(u32::MAX)));
    assert_eq!(counts.highlight_count(), 2);
    assert_eq!(counts.notification_count(), u32::MAX);
    assert!(counts.has_notifications());
    let counts = UnreadNotificationsCount::from(None, Some(u64::from(u32::MAX) + 1));
    assert_eq!(counts.highlight_count(), 0);
    assert_eq!(counts.notification_count(), 0);
    assert!(!counts.has_notifications());
}
