//! Fetching an event after a notification came in.

use vstd::prelude::*;

use crate::event::TimelineEvent;
use crate::notification_settings::{plays_sound, SdkAction, SdkTweak};

verus! {

/// Fetches an event after a notification came in, in a process of its own.
pub struct NotificationService {
    pub base_path: String,
    pub user_id: String,
}

/// What is shown of a notification.
pub struct NotificationItem {
    pub event: TimelineEvent,
    pub room_id: String,
    pub sender_display_name: Option<String>,
    pub sender_avatar_url: Option<String>,
    pub room_display_name: String,
    pub room_avatar_url: Option<String>,
    pub is_noisy: bool,
    pub is_direct: bool,
    pub is_encrypted: bool,
}

/// The sender of an event, if they are a known member.
pub struct NotificationSender {
    pub display_name: Option<String>,
    pub avatar_url: Option<String>,
}

/// The room of an event.
pub struct NotificationRoom {
    pub room_id: String,
    pub display_name: String,
    pub avatar_url: Option<String>,
    pub is_direct: bool,
    pub is_encrypted: bool,
}

/// Whether an action gives a notification.
pub open spec fn notifies(action: SdkAction) -> bool {
    action is Notify
}

/// Whether one of the actions both gives a notification and plays a sound.
pub open spec fn is_noisy(actions: Seq<SdkAction>) -> bool {
    exists|i: int|
        0 <= i < actions.len() && plays_sound(#[trigger] actions[i]) && notifies(actions[i])
}

/// Whether one of the actions both gives a notification and plays a sound.
fn any_noisy(actions: &Vec<SdkAction>) -> (r: bool)
    ensures
        r == is_noisy(actions@),
{
    let mut i: usize = 0;
    while i < actions.len()
        invariant
            i <= actions.len(),
            forall|j: int|
                0 <= j < i ==> !(plays_sound(#[trigger] actions@[j]) && notifies(actions@[j])),
        decreases actions.len() - i,
    {
        let sounds: bool = match &actions[i] {
            SdkAction::SetTweak { value: SdkTweak::Sound { .. } } => true,
            _ => false,
        };
        let gives: bool = match &actions[i] {
            SdkAction::Notify => true,
            _ => false,
        };
        if sounds && gives {
            assert(plays_sound(actions@[i as int]) && notifies(actions@[i as int]));
            return true;
        }
        i = i + 1;
    }
    false
}

impl NotificationItem {
    /// What is shown of an event, with the actions of the push rules for it.
    pub fn new(
        event: TimelineEvent,
        actions: &Vec<SdkAction>,
        sender: Option<NotificationSender>,
        room: NotificationRoom,
    ) -> (r: NotificationItem)
        ensures
            r == (NotificationItem {
                event,
                room_id: room.room_id,
                sender_display_name: match sender {
                    Some(sender) => sender.display_name,
                    None => None,
                },
                sender_avatar_url: match sender {
                    Some(sender) => sender.avatar_url,
                    None => None,
                },
                room_display_name: room.display_name,
                room_avatar_url: room.avatar_url,
                is_noisy: is_noisy(actions@),
                is_direct: room.is_direct,
                is_encrypted: room.is_encrypted,
            }),
    {
        let (sender_display_name, sender_avatar_url): (Option<String>, Option<String>) =
            match sender {
            Some(sender) => (sender.display_name, sender.avatar_url),
            None => (None, None),
        };
        NotificationItem {
            event,
            room_id: room.room_id,
            sender_display_name,
            sender_avatar_url,
            room_display_name: room.display_name,
            room_avatar_url: room.avatar_url,
            is_noisy: any_noisy(actions),
            is_direct: room.is_direct,
            is_encrypted: room.is_encrypted,
        }
    }
}

impl NotificationService {
    /// A new notification service.
    pub fn new(base_path: String, user_id: String) -> (r: NotificationService)
        ensures
            r == (NotificationService { base_path, user_id }),
    {
        NotificationService { base_path, user_id }
    }

    /// The notification for an event: no event is shown.
    pub fn get_notification_item(&self, _room_id: String, _event_id: String) -> (r: Option<
        NotificationItem,
    >)
        ensures
            r is None,
    {
        None
    }
}

/// An action gives a notification or plays a sound, never both, so no notification
/// of the service is noisy.
pub proof fn service_is_never_noisy(actions: Seq<SdkAction>)
    ensures
        !is_noisy(actions),
{
}

/// A notification tells of its event, its sender and its room, each thing by its own name.
pub proof fn notifications_tell_of_event_sender_and_room(
    event: TimelineEvent,
    actions: Vec<SdkAction>,
    sender: Option<NotificationSender>,
    room: NotificationRoom,
    r: NotificationItem,
)
    requires
        call_ensures(NotificationItem::new, (event, &actions, sender, room), r),
    ensures
        r.event == event && r.room_id == room.room_id && r.room_display_name == room.display_name,
        r.room_avatar_url == room.avatar_url && r.is_direct == room.is_direct && r.is_encrypted
            == room.is_encrypted,
        sender is None ==> r.sender_display_name is None && r.sender_avatar_url is None,
        sender is Some ==> r.sender_display_name == sender->0.display_name && r.sender_avatar_url
            == sender->0.avatar_url,
{
}

} // verus!
