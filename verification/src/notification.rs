//! What a user is told of an event.

use vstd::prelude::*;

use crate::error::{texts_error, ClientError};
use crate::event::{
    Relation, SyncMessageLikeEvent, SyncTimelineEvent, TimelineEvent,
};
use crate::ids::{
    check_event_id, check_room_id, event_id_refusal, id_checked, room_id_refusal,
};
use crate::join_rule::{join_rule_if_known, JoinRule, SdkJoinRule};
use crate::notification_settings::{
    actions_from_sdk, any_highlight, any_sound, highlights, known_actions, plays_sound, Action,
    SdkAction,
};

verus! {

/// The event of a notification.
pub enum NotificationEvent {
    Timeline { event: TimelineEvent },
    Invite { sender: String },
}

/// Who sent the event.
pub struct NotificationSenderInfo {
    pub display_name: Option<String>,
    pub avatar_url: Option<String>,
    pub is_name_ambiguous: bool,
}

/// The room of the event.
pub struct NotificationRoomInfo {
    pub display_name: String,
    pub avatar_url: Option<String>,
    pub canonical_alias: Option<String>,
    pub topic: Option<String>,
    pub join_rule: Option<JoinRule>,
    pub joined_members_count: u64,
    pub is_encrypted: Option<bool>,
    pub is_direct: bool,
    pub is_space: bool,
}

/// A notification.
pub struct NotificationItem {
    pub event: NotificationEvent,
    pub sender_info: NotificationSenderInfo,
    pub room_info: NotificationRoomInfo,
    /// Whether a sound is played, if that is known.
    pub is_noisy: Option<bool>,
    pub has_mention: Option<bool>,
    pub thread_id: Option<String>,
    /// What the push rules do for the event.
    pub actions: Option<Vec<Action>>,
}

/// A notification, as the SDK has it.
pub struct SdkNotificationItem {
    pub event: NotificationEvent,
    pub sender_display_name: Option<String>,
    pub sender_avatar_url: Option<String>,
    pub is_sender_name_ambiguous: bool,
    pub room_computed_display_name: String,
    pub room_avatar_url: Option<String>,
    pub room_canonical_alias: Option<String>,
    pub room_topic: Option<String>,
    pub room_join_rule: Option<SdkJoinRule>,
    pub joined_members_count: u64,
    pub is_room_encrypted: Option<bool>,
    pub is_direct_message_room: bool,
    pub is_space: bool,
    pub is_noisy: Option<bool>,
    pub has_mention: Option<bool>,
    pub thread_id: Option<String>,
    pub actions: Option<Vec<SdkAction>>,
}

/// The notification that one of the SDK stands for: a join rule or an action that
/// is not known is left out.
pub open spec fn notification_of(item: SdkNotificationItem, r: NotificationItem) -> bool {
    &&& r.event == item.event
    &&& r.sender_info == NotificationSenderInfo {
        display_name: item.sender_display_name,
        avatar_url: item.sender_avatar_url,
        is_name_ambiguous: item.is_sender_name_ambiguous,
    }
    &&& r.room_info == NotificationRoomInfo {
        display_name: item.room_computed_display_name,
        avatar_url: item.room_avatar_url,
        canonical_alias: item.room_canonical_alias,
        topic: item.room_topic,
        join_rule: r.room_info.join_rule,
        joined_members_count: item.joined_members_count,
        is_encrypted: item.is_room_encrypted,
        is_direct: item.is_direct_message_room,
        is_space: item.is_space,
    }
    &&& join_rule_if_known(item.room_join_rule, r.room_info.join_rule)
    &&& r.is_noisy == item.is_noisy
    &&& r.has_mention == item.has_mention
    &&& r.thread_id == item.thread_id
    &&& r.actions is Some <==> item.actions is Some
    &&& item.actions is Some ==> r.actions->0@ == known_actions(item.actions->0@)
}

impl NotificationItem {
    /// The notification that one of the SDK stands for.
    pub fn from_inner(item: SdkNotificationItem) -> (r: NotificationItem)
        ensures
            notification_of(item, r),
    {
        let actions: Option<Vec<Action>> = match &item.actions {
            Some(actions) => Some(actions_from_sdk(actions)),
            None => None,
        };
        NotificationItem {
            event: item.event,
            sender_info: NotificationSenderInfo {
                display_name: item.sender_display_name,
                avatar_url: item.sender_avatar_url,
                is_name_ambiguous: item.is_sender_name_ambiguous,
            },
            room_info: NotificationRoomInfo {
                display_name: item.room_computed_display_name,
                avatar_url: item.room_avatar_url,
                canonical_alias: item.room_canonical_alias,
                topic: item.room_topic,
                join_rule: JoinRule::if_known(item.room_join_rule),
                joined_members_count: item.joined_members_count,
                is_encrypted: item.is_room_encrypted,
                is_direct: item.is_direct_message_room,
                is_space: item.is_space,
            },
            is_noisy: item.is_noisy,
            has_mention: item.has_mention,
            thread_id: item.thread_id,
            actions,
        }
    }
}

/// What became of an event that a user was to be told of.
pub enum NotificationStatus {
    /// The event was found and is not filtered out.
    Event { item: NotificationItem },
    /// The event was not found.
    EventNotFound,
    /// The push rules, or the list of ignored users, keep the event from the user.
    EventFilteredOut,
}

/// What became of an event, as the SDK has it.
pub enum SdkNotificationStatus {
    Event { item: SdkNotificationItem },
    EventNotFound,
    EventFilteredOut,
}

/// What became of an event.
pub open spec fn status_of(status: SdkNotificationStatus, r: NotificationStatus) -> bool {
    match status {
        SdkNotificationStatus::Event { item } => r is Event && notification_of(item, r->item),
        SdkNotificationStatus::EventNotFound => r is EventNotFound,
        SdkNotificationStatus::EventFilteredOut => r is EventFilteredOut,
    }
}

impl NotificationStatus {
    /// What became of an event.
    pub fn from(status: SdkNotificationStatus) -> (r: NotificationStatus)
        ensures
            status_of(status, r),
    {
        match status {
            SdkNotificationStatus::Event { item } => NotificationStatus::Event {
                item: NotificationItem::from_inner(item),
            },
            SdkNotificationStatus::EventNotFound => NotificationStatus::EventNotFound,
            SdkNotificationStatus::EventFilteredOut => NotificationStatus::EventFilteredOut,
        }
    }
}

/// What became of one of several events.
pub enum BatchNotificationResult {
    /// More is known of the event.
    Fetched { status: NotificationStatus },
    /// The event could not be fetched.
    Error { message: String },
}

/// What became of one of several events: an error is told by its text.
pub open spec fn batch_result_of(
    result: Result<SdkNotificationStatus, String>,
    r: BatchNotificationResult,
) -> bool {
    match result {
        Ok(status) => r is Fetched && status_of(status, r->status),
        Err(message) => r == BatchNotificationResult::Error { message },
    }
}

impl BatchNotificationResult {
    /// What became of one of several events: an error is told by its text.
    pub fn from(result: Result<SdkNotificationStatus, String>) -> (r: BatchNotificationResult)
        ensures
            batch_result_of(result, r),
    {
        match result {
            Ok(status) => BatchNotificationResult::Fetched { status: NotificationStatus::from(status) },
            Err(message) => BatchNotificationResult::Error { message },
        }
    }
}

/// What became of several events, by their IDs.
pub fn batch_results(items: Vec<(String, Result<SdkNotificationStatus, String>)>) -> (r: Vec<
    (String, BatchNotificationResult),
>)
    ensures
        r@.len() == items@.len(),
        forall|i: int|
            0 <= i < r@.len() ==> {
                &&& (#[trigger] r@[i]).0 == items@[i].0
                &&& batch_result_of(items@[i].1, r@[i].1)
            },
{
    let ghost all = items@;
    let mut results: Vec<(String, BatchNotificationResult)> = Vec::new();
    for item in iter: items.into_iter()
        invariant
            iter.seq() == all,
            results@.len() == iter.index(),
            forall|i: int|
                0 <= i < results@.len() ==> {
                    &&& (#[trigger] results@[i]).0 == all[i].0
                    &&& batch_result_of(all[i].1, results@[i].1)
                },
    {
        results.push((item.0, BatchNotificationResult::from(item.1)));
    }
    results
}

/// The events of a room that a user is to be told of.
pub struct NotificationItemsRequest {
    pub room_id: String,
    pub event_ids: Vec<String>,
}

/// The texts with which the first text that is not an event ID is refused, if there
/// is one.
pub open spec fn first_event_refusal(ids: Seq<String>) -> Option<(Seq<char>, Seq<char>)>
    decreases ids.len(),
{
    if ids.len() == 0 {
        None
    } else if first_event_refusal(ids.drop_last()) is Some {
        first_event_refusal(ids.drop_last())
    } else {
        event_id_refusal(ids.last()@)
    }
}

/// What the first texts are refused with, all of them are refused with.
proof fn lemma_first_event_refusal_stays(ids: Seq<String>, n: int)
    requires
        0 <= n <= ids.len(),
        first_event_refusal(ids.take(n)) is Some,
    ensures
        first_event_refusal(ids) == first_event_refusal(ids.take(n)),
    decreases ids.len() - n,
{
    if n < ids.len() {
        assert(ids.take(n + 1).drop_last() =~= ids.take(n));
        lemma_first_event_refusal_stays(ids, n + 1);
    } else {
        assert(ids.take(n) =~= ids);
    }
}

impl NotificationItemsRequest {
    /// The ID of the room.
    pub fn room_id(&self) -> (r: Result<String, ClientError>)
        ensures
            match room_id_refusal(self.room_id@) {
                None => r == Ok::<String, ClientError>(self.room_id),
                Some(texts) => r matches Err(error) && texts_error(texts, error),
            },
    {
        match check_room_id(self.room_id.as_str()) {
            Ok(()) => Ok(self.room_id.clone()),
            Err(error) => Err(error),
        }
    }

    /// The IDs of the events. The first that is none is the error.
    pub fn event_ids(&self) -> (r: Result<Vec<String>, ClientError>)
        ensures
            match first_event_refusal(self.event_ids@) {
                None => r matches Ok(ids) && ids@ == self.event_ids@,
                Some(texts) => r matches Err(error) && texts_error(texts, error),
            },
    {
        let mut out: Vec<String> = Vec::new();
        let mut i: usize = 0;
        while i < self.event_ids.len()
            invariant
                i <= self.event_ids.len(),
                out@ == self.event_ids@.take(i as int),
                first_event_refusal(self.event_ids@.take(i as int)) is None,
            decreases self.event_ids.len() - i,
        {
            proof {
                assert(self.event_ids@.take(i as int + 1).drop_last() =~= self.event_ids@.take(
                    i as int,
                ));
            }
            match check_event_id(self.event_ids[i].as_str()) {
                Ok(()) => {},
                Err(error) => {
                    proof {
                        lemma_first_event_refusal_stays(self.event_ids@, i as int + 1);
                    }
                    return Err(error);
                },
            }
            out.push(self.event_ids[i].clone());
            i = i + 1;
        }
        proof {
            assert(self.event_ids@.take(i as int) =~= self.event_ids@);
        }
        Ok(out)
    }

    /// The texts with which the request is refused, if it is: room and events have
    /// to be named by their IDs, and the room is looked at first.
    pub open spec fn refused(self) -> Option<(Seq<char>, Seq<char>)> {
        match room_id_refusal(self.room_id@) {
            Some(texts) => Some(texts),
            None => first_event_refusal(self.event_ids@),
        }
    }

    /// The request, if room and events are named by their IDs. The room is looked
    /// at first.
    pub fn checked(&self) -> (r: Result<NotificationItemsRequest, ClientError>)
        ensures
            match self.refused() {
                Some(texts) => r matches Err(error) && texts_error(texts, error),
                None => r matches Ok(request) && request.room_id == self.room_id
                    && request.event_ids@ == self.event_ids@,
            },
    {
        let room_id: String = match self.room_id() {
            Ok(room_id) => room_id,
            Err(error) => return Err(error),
        };
        match self.event_ids() {
            Ok(event_ids) => Ok(NotificationItemsRequest { room_id, event_ids }),
            Err(error) => Err(error),
        }
    }
}

/// The texts with which the first request that is refused is, if there is one.
pub open spec fn first_request_refusal(requests: Seq<NotificationItemsRequest>) -> Option<
    (Seq<char>, Seq<char>),
>
    decreases requests.len(),
{
    if requests.len() == 0 {
        None
    } else if requests[0].refused() is Some {
        requests[0].refused()
    } else {
        first_request_refusal(requests.skip(1))
    }
}

/// The requests, if all rooms and events are named by their IDs. The first request
/// that is refused is the error.
pub fn checked_requests(requests: &Vec<NotificationItemsRequest>) -> (r: Result<
    Vec<NotificationItemsRequest>,
    ClientError,
>)
    ensures
        match first_request_refusal(requests@) {
            Some(texts) => r matches Err(error) && texts_error(texts, error),
            None => {
                &&& r matches Ok(checked)
                &&& checked@.len() == requests@.len()
                &&& forall|i: int|
                    0 <= i < checked@.len() ==> {
                        &&& (#[trigger] checked@[i]).room_id == requests@[i].room_id
                        &&& checked@[i].event_ids@ == requests@[i].event_ids@
                    }
            },
        },
{
    let mut checked: Vec<NotificationItemsRequest> = Vec::new();
    let mut i: usize = 0;
    proof {
        assert(requests@.skip(0) =~= requests@);
    }
    while i < requests.len()
        invariant
            i <= requests.len(),
            checked@.len() == i,
            forall|j: int|
                0 <= j < i ==> {
                    &&& (#[trigger] checked@[j]).room_id == requests@[j].room_id
                    &&& checked@[j].event_ids@ == requests@[j].event_ids@
                },
            first_request_refusal(requests@) == first_request_refusal(requests@.skip(i as int)),
        decreases requests.len() - i,
    {
        proof {
            assert(requests@.skip(i as int).skip(1) =~= requests@.skip(i as int + 1));
        }
        match requests[i].checked() {
            Ok(request) => checked.push(request),
            Err(error) => return Err(error),
        }
        i = i + 1;
    }
    Ok(checked)
}

/// Checks the names of the room and the event that a user is to be told of. The
/// room is looked at first.
pub fn check_notification_ids(room_id: &str, event_id: &str) -> (r: Result<(), ClientError>)
    ensures
        match room_id_refusal(room_id@) {
            Some(texts) => r matches Err(error) && texts_error(texts, error),
            None => id_checked(event_id_refusal(event_id@), r),
        },
{
    match check_room_id(room_id) {
        Ok(()) => check_event_id(event_id),
        Err(error) => Err(error),
    }
}

/// What is known of a room when an event comes in with the sync.
pub struct SyncRoom {
    /// The display name, if it could be made up.
    pub display_name: Option<String>,
    /// Whether the room is a direct one, if that could be found out.
    pub is_direct: Option<bool>,
    pub avatar_url: Option<String>,
    pub canonical_alias: Option<String>,
    pub topic: Option<String>,
    pub join_rule: Option<SdkJoinRule>,
    pub joined_members_count: u64,
    pub is_encrypted: bool,
    pub is_space: bool,
}

/// The thread that a message belongs to, if it belongs to one.
pub open spec fn message_thread(event: SyncTimelineEvent) -> Option<String> {
    match event {
        SyncTimelineEvent::MessageLike {
            event: SyncMessageLikeEvent::RoomMessage { content: Some(message) },
            ..
        } => match message.relates_to {
            Some(Relation::Thread { event_id }) => Some(event_id),
            _ => None,
        },
        _ => None,
    }
}

/// The thread that a message belongs to, if it belongs to one.
fn thread_of(event: &SyncTimelineEvent) -> (r: Option<String>)
    ensures
        r == message_thread(*event),
{
    match event {
        SyncTimelineEvent::MessageLike {
            event: SyncMessageLikeEvent::RoomMessage { content: Some(message) },
            ..
        } => match &message.relates_to {
            Some(Relation::Thread { event_id }) => Some(event_id.clone()),
            _ => None,
        },
        _ => None,
    }
}

/// What is shown of a sender: nothing of one who is not a known member.
pub open spec fn sender_info_of(
    member: Option<NotificationSenderInfo>,
) -> NotificationSenderInfo {
    match member {
        Some(info) => info,
        None => NotificationSenderInfo {
            display_name: None,
            avatar_url: None,
            is_name_ambiguous: false,
        },
    }
}

/// The notification for an event that came in with the sync.
pub open spec fn sync_notification_of(
    actions: Seq<SdkAction>,
    event: NotificationEvent,
    member: Option<NotificationSenderInfo>,
    room: SyncRoom,
    r: NotificationItem,
) -> bool {
    &&& r.event == event
    &&& r.sender_info == sender_info_of(member)
    &&& r.room_info == NotificationRoomInfo {
        display_name: room.display_name->0,
        avatar_url: room.avatar_url,
        canonical_alias: room.canonical_alias,
        topic: room.topic,
        join_rule: r.room_info.join_rule,
        joined_members_count: room.joined_members_count,
        is_encrypted: Some(room.is_encrypted),
        is_direct: room.is_direct->0,
        is_space: room.is_space,
    }
    &&& join_rule_if_known(room.join_rule, r.room_info.join_rule)
    &&& r.is_noisy == Some(exists|i: int| 0 <= i < actions.len() && plays_sound(#[trigger] actions[i]))
    &&& r.has_mention == Some(
        exists|i: int| 0 <= i < actions.len() && highlights(#[trigger] actions[i]),
    )
    &&& r.thread_id == (match event {
        NotificationEvent::Timeline { event } => message_thread(event.event),
        NotificationEvent::Invite { .. } => None,
    })
    &&& r.actions is Some
    &&& r.actions->0@ == known_actions(actions)
}

/// The notification for an event that came in with the sync, from what the push
/// rules do for it, the event itself if it could be read, the sender if they are a
/// known member, and the room. There is none for an event that could not be read,
/// nor for a room whose display name or directness is not known.
pub fn sync_notification(
    actions: &Vec<SdkAction>,
    event: Option<NotificationEvent>,
    member: Option<NotificationSenderInfo>,
    room: SyncRoom,
) -> (r: Option<NotificationItem>)
    ensures
        r is Some <==> event is Some && room.display_name is Some && room.is_direct is Some,
        r matches Some(item) ==> sync_notification_of(actions@, event->0, member, room, item),
{
    let is_noisy: bool = any_sound(actions);
    let has_mention: bool = any_highlight(actions);
    let known: Vec<Action> = actions_from_sdk(actions);
    let event: NotificationEvent = match event {
        Some(event) => event,
        None => return None,
    };
    let thread_id: Option<String> = match &event {
        NotificationEvent::Timeline { event } => thread_of(&event.event),
        NotificationEvent::Invite { .. } => None,
    };
    let sender_info: NotificationSenderInfo = match member {
        Some(info) => info,
        None => NotificationSenderInfo {
            display_name: None,
            avatar_url: None,
            is_name_ambiguous: false,
        },
    };
    let display_name: String = match room.display_name {
        Some(name) => name,
        None => return None,
    };
    let is_direct: bool = match room.is_direct {
        Some(is_direct) => is_direct,
        None => return None,
    };
    let room_info: NotificationRoomInfo = NotificationRoomInfo {
        display_name,
        avatar_url: room.avatar_url,
        canonical_alias: room.canonical_alias,
        topic: room.topic,
        join_rule: JoinRule::if_known(room.join_rule),
        joined_members_count: room.joined_members_count,
        is_encrypted: Some(room.is_encrypted),
        is_direct,
        is_space: room.is_space,
    };
    Some(
        NotificationItem {
            event,
            sender_info,
            room_info,
            is_noisy: Some(is_noisy),
            has_mention: Some(has_mention),
            thread_id,
            actions: Some(known),
        },
    )
}

/// A notification that plays a sound hands on an action that does, and only such a
/// notification does.
pub proof fn noisy_actions_are_handed_on(actions: Seq<SdkAction>)
    ensures
        (exists|i: int| 0 <= i < actions.len() && plays_sound(#[trigger] actions[i])) <==> (
        exists|i: int|
            {
                &&& 0 <= i < known_actions(actions).len()
                &&& (#[trigger] known_actions(actions)[i]) matches Action::SetTweak { value }
                &&& value is Sound
            }),
    decreases actions.len(),
{
    let keep = |action: SdkAction| crate::notification_settings::is_known_action(action);
    let f = |action: SdkAction| crate::notification_settings::known_action(action);
    reveal(Seq::filter);
    let kept = actions.filter(keep);
    let known = known_actions(actions);
    if actions.len() == 0 {
        assert(known =~= Seq::empty());
    } else {
        let rest = actions.drop_last();
        let last = actions.last();
        noisy_actions_are_handed_on(rest);
        let known_rest = known_actions(rest);
        if keep(last) {
            assert(known =~= known_rest.push(f(last)));
            assert(known[known.len() - 1] == f(last));
            assert forall|i: int| 0 <= i < known_rest.len() implies known[i] == known_rest[i] by {}
        } else {
            assert(known =~= known_rest);
        }
        assert(forall|i: int| 0 <= i < rest.len() ==> rest[i] == actions[i]);
        assert(actions[actions.len() - 1] == last);
        if exists|i: int| 0 <= i < rest.len() && plays_sound(#[trigger] rest[i]) {
            let i = choose|i: int| 0 <= i < rest.len() && plays_sound(#[trigger] rest[i]);
            assert(plays_sound(actions[i]));
        }
    }
}

/// A notification that came with the sync names a thread if and only if its event is a
/// message of the timeline that was not redacted and is part of that thread. A reply
/// outside of threads is in none, and neither is any other event. Where the relation of
/// the message was handed on with the event, it is the thread that the event tells.
pub proof fn only_threads_are_named(
    actions: Vec<SdkAction>,
    event: NotificationEvent,
    member: Option<NotificationSenderInfo>,
    room: SyncRoom,
    item: NotificationItem,
    root: Option<String>,
)
    requires
        call_ensures(sync_notification, (&actions, Some(event), member, room), Some(item)),
        event matches NotificationEvent::Timeline { event: timeline } ==> call_ensures(
            TimelineEvent::thread_root_event_id,
            (&timeline,),
            root,
        ),
    ensures
        item.thread_id is Some ==> (event matches NotificationEvent::Timeline { event: timeline }
            && timeline.event matches SyncTimelineEvent::MessageLike { event: content, .. }
            && content matches SyncMessageLikeEvent::RoomMessage { content: Some(message) }
            && message.relates_to == Some(Relation::Thread { event_id: item.thread_id->0 })),
        event matches NotificationEvent::Timeline { event: timeline } ==> (
        timeline.event matches SyncTimelineEvent::MessageLike { event: content, relation } ==> (
        content matches SyncMessageLikeEvent::RoomMessage { content: Some(message) } ==> {
            &&& message.relates_to matches Some(Relation::Thread { event_id }) ==> item.thread_id
                == Some(event_id)
            &&& message.relates_to is None || message.relates_to->0 is Reply
                || message.relates_to->0 is Other ==> item.thread_id is None
            &&& relation == message.relates_to ==> item.thread_id == root
        })),
{
}

/// A notification that came with the sync tells of the event, of its sender and of its
/// room, each thing by its own name. There is one wherever the event, the display name and
/// the directness of the room are known.
pub proof fn sync_notifications_tell_of_event_sender_and_room(
    actions: Vec<SdkAction>,
    event: Option<NotificationEvent>,
    member: Option<NotificationSenderInfo>,
    room: SyncRoom,
    r: Option<NotificationItem>,
)
    requires
        call_ensures(sync_notification, (&actions, event, member, room), r),
    ensures
        r is None <==> event is None || room.display_name is None || room.is_direct is None,
        r matches Some(item) ==> {
            &&& Some(item.event) == event
            &&& Some(item.room_info.display_name) == room.display_name
            &&& Some(item.room_info.is_direct) == room.is_direct
            &&& item.room_info.is_encrypted == Some(room.is_encrypted)
            &&& item.room_info.avatar_url == room.avatar_url
            &&& item.room_info.canonical_alias == room.canonical_alias
            &&& item.room_info.topic == room.topic
            &&& item.room_info.joined_members_count == room.joined_members_count
            &&& item.room_info.is_space == room.is_space
            &&& member is Some ==> Some(item.sender_info) == member
            &&& member is None ==> item.sender_info.display_name is None
                && item.sender_info.avatar_url is None && !item.sender_info.is_name_ambiguous
        },
{
}

/// The notification that one of the SDK stands for tells each thing that the other one
/// does: two that come out the same went in the same, but for what the SDK knows of join
/// rules and actions.
pub proof fn notifications_keep_what_the_sdk_tells(
    item: SdkNotificationItem,
    r: NotificationItem,
    status: NotificationStatus,
    result: BatchNotificationResult,
)
    requires
        call_ensures(NotificationItem::from_inner, (item,), r),
        call_ensures(NotificationStatus::from, (SdkNotificationStatus::Event { item },), status),
        call_ensures(
            BatchNotificationResult::from,
            (Ok::<SdkNotificationStatus, String>(SdkNotificationStatus::Event { item }),),
            result,
        ),
    ensures
        item == (SdkNotificationItem {
            event: r.event,
            sender_display_name: r.sender_info.display_name,
            sender_avatar_url: r.sender_info.avatar_url,
            is_sender_name_ambiguous: r.sender_info.is_name_ambiguous,
            room_computed_display_name: r.room_info.display_name,
            room_avatar_url: r.room_info.avatar_url,
            room_canonical_alias: r.room_info.canonical_alias,
            room_topic: r.room_info.topic,
            joined_members_count: r.room_info.joined_members_count,
            is_room_encrypted: r.room_info.is_encrypted,
            is_direct_message_room: r.room_info.is_direct,
            is_space: r.room_info.is_space,
            is_noisy: r.is_noisy,
            has_mention: r.has_mention,
            thread_id: r.thread_id,
            ..item
        }),
        status matches NotificationStatus::Event { item: told } && told.event == item.event
            && told.thread_id == item.thread_id && told.is_noisy == item.is_noisy,
        result matches BatchNotificationResult::Fetched { status: NotificationStatus::Event {
            item: told,
        } } && told.event == item.event,
{
}

/// Events that were not found, or that the rules keep from the user, are told as such, and
/// an error is told by its text.
pub proof fn missing_events_are_told_as_such(
    not_found: NotificationStatus,
    filtered_out: NotificationStatus,
    message: String,
    failed: BatchNotificationResult,
)
    requires
        call_ensures(NotificationStatus::from, (SdkNotificationStatus::EventNotFound,), not_found),
        call_ensures(
            NotificationStatus::from,
            (SdkNotificationStatus::EventFilteredOut,),
            filtered_out,
        ),
        call_ensures(
            BatchNotificationResult::from,
            (Err::<SdkNotificationStatus, String>(message),),
            failed,
        ),
    ensures
        not_found is EventNotFound,
        filtered_out is EventFilteredOut,
        failed == (BatchNotificationResult::Error { message }),
{
}

/// What became of each event is told under its own ID, in the order that was asked.
pub proof fn results_are_told_by_event(
    items: Vec<(String, Result<SdkNotificationStatus, String>)>,
    r: Vec<(String, BatchNotificationResult)>,
    i: int,
)
    requires
        call_ensures(batch_results, (items,), r),
    ensures
        r@.len() == items@.len(),
        0 <= i < items@.len() ==> r@[i].0 == items@[i].0 && (r@[i].1 is Error <==> items@[i].1 is Err),
        0 <= i < items@.len() && items@[i].1 is Err ==> r@[i].1 == (BatchNotificationResult::Error {
            message: items@[i].1->Err_0,
        }),
{
    if 0 <= i < items@.len() {
        assert(r@[i].0 == items@[i].0 && batch_result_of(items@[i].1, r@[i].1));
    }
}

/// A request is made for the room and the events that it names, if they are named by their IDs; the
/// room is looked at before the events.
pub proof fn requests_name_rooms_and_events(
    request: NotificationItemsRequest,
    room: Result<String, ClientError>,
    r: Result<NotificationItemsRequest, ClientError>,
    room_id: &str,
    event_id: &str,
    checked: Result<(), ClientError>,
)
    requires
        call_ensures(NotificationItemsRequest::room_id, (&request,), room),
        call_ensures(NotificationItemsRequest::checked, (&request,), r),
        call_ensures(check_notification_ids, (room_id, event_id), checked),
    ensures
        room is Ok <==> room_id_refusal(request.room_id@) is None,
        room is Ok ==> room->Ok_0 == request.room_id,
        r is Ok ==> room is Ok && r->Ok_0.room_id == request.room_id && r->Ok_0.event_ids@
            == request.event_ids@,
        room is Ok && request.event_ids@.len() == 0 ==> r is Ok,
        r is Ok ==> forall|i: int|
            0 <= i < request.event_ids@.len() ==> event_id_refusal(
                (#[trigger] request.event_ids@[i])@,
            ) is None,
        checked is Ok <==> room_id_refusal(room_id@) is None && event_id_refusal(event_id@) is None,
{
    lemma_no_event_is_refused(request.event_ids@);
}

/// Where nothing is refused, every text is the ID of an event.
proof fn lemma_no_event_is_refused(ids: Seq<String>)
    ensures
        first_event_refusal(ids) is None ==> forall|i: int|
            0 <= i < ids.len() ==> event_id_refusal((#[trigger] ids[i])@) is None,
    decreases ids.len(),
{
    if ids.len() > 0 && first_event_refusal(ids) is None {
        let front = ids.drop_last();
        lemma_no_event_is_refused(front);
        assert forall|i: int| 0 <= i < ids.len() implies event_id_refusal((#[trigger] ids[i])@) is None by {
            if i < front.len() {
                assert(front[i] == ids[i]);
            }
        }
    }
}

/// A notification that came with the sync is noisy only where an action plays a sound, and mentions
/// the user only where one highlights.
pub proof fn sounds_and_highlights_are_told(
    action: SdkAction,
    actions: Vec<SdkAction>,
    event: NotificationEvent,
    member: Option<NotificationSenderInfo>,
    room: SyncRoom,
    item: NotificationItem,
)
    requires
        actions@ == seq![action],
        call_ensures(sync_notification, (&actions, Some(event), member, room), Some(item)),
    ensures
        item.is_noisy == Some(
            action matches SdkAction::SetTweak { value } && value is Sound,
        ),
        item.has_mention == Some(
            action == (SdkAction::SetTweak {
                value: crate::notification_settings::SdkTweak::Highlight { value: true },
            }),
        ),
        item.actions is Some,
        item.actions->0@.len() <= 1,
{
    assert(actions@[0] == action);
    reveal(Seq::filter);
    assert(actions@.drop_last() =~= Seq::empty());
    assert(known_actions(actions@).len() <= 1);
}

/// Requests are made one for one, in their order, for what they name.
pub proof fn requests_are_made_in_order(
    requests: Vec<NotificationItemsRequest>,
    r: Result<Vec<NotificationItemsRequest>, ClientError>,
    i: int,
)
    requires
        call_ensures(checked_requests, (&requests,), r),
    ensures
        requests@.len() == 0 ==> r is Ok,
        r is Ok ==> r->Ok_0@.len() == requests@.len(),
        r is Ok && 0 <= i < requests@.len() ==> r->Ok_0@[i].room_id == requests@[i].room_id
            && r->Ok_0@[i].event_ids@ == requests@[i].event_ids@,
{
}

/// The join rule of the room and the actions of the push rules are told with a notification.
pub proof fn join_rules_and_actions_are_told(
    actions: Vec<SdkAction>,
    event: NotificationEvent,
    member: Option<NotificationSenderInfo>,
    room: SyncRoom,
    item: NotificationItem,
    known: Vec<Action>,
    inner: SdkNotificationItem,
    told: NotificationItem,
)
    requires
        call_ensures(sync_notification, (&actions, Some(event), member, room), Some(item)),
        call_ensures(actions_from_sdk, (&actions,), known),
        call_ensures(NotificationItem::from_inner, (inner,), told),
    ensures
        item.actions is Some && item.actions->0@ == known@,
        room.join_rule is None ==> item.room_info.join_rule is None,
        room.join_rule == Some(SdkJoinRule::Public) ==> item.room_info.join_rule == Some(JoinRule::Public),
        room.join_rule == Some(SdkJoinRule::Invite) ==> item.room_info.join_rule == Some(JoinRule::Invite),
        room.join_rule == Some(SdkJoinRule::Knock) ==> item.room_info.join_rule == Some(JoinRule::Knock),
        room.join_rule == Some(SdkJoinRule::Private) ==> item.room_info.join_rule == Some(JoinRule::Private),
        inner.room_join_rule is None ==> told.room_info.join_rule is None,
        inner.room_join_rule == Some(SdkJoinRule::Public) ==> told.room_info.join_rule == Some(JoinRule::Public),
        inner.room_join_rule == Some(SdkJoinRule::Invite) ==> told.room_info.join_rule == Some(JoinRule::Invite),
        inner.room_join_rule == Some(SdkJoinRule::Knock) ==> told.room_info.join_rule == Some(JoinRule::Knock),
        inner.room_join_rule == Some(SdkJoinRule::Private) ==> told.room_info.join_rule == Some(JoinRule::Private),
        inner.actions is None <==> told.actions is None,
{
}

} // verus!
