//! The list of rooms, grouped by spaces.

use vstd::prelude::*;

use crate::list_update::{ListItem, ListUpdate};

verus! {

/// An entry of the list. `R` is a room.
pub enum GroupedRoomListItem<R> {
    Room { room: R },
    /// A space, with the room that is shown of it if there is one.
    Space { space: R, room: Option<R> },
}

/// An entry of the list, as the SDK has it.
pub enum SdkGroupedRoomListItem<R> {
    Room(R),
    Space(R, Option<R>),
}

impl<R> ListItem<SdkGroupedRoomListItem<R>> for GroupedRoomListItem<R> {
    open spec fn is_item(value: SdkGroupedRoomListItem<R>, item: GroupedRoomListItem<R>) -> bool {
        item == match value {
            SdkGroupedRoomListItem::Room(room) => GroupedRoomListItem::Room { room },
            SdkGroupedRoomListItem::Space(space, room) => GroupedRoomListItem::Space {
                space,
                room,
            },
        }
    }

    fn from_element(value: SdkGroupedRoomListItem<R>) -> (item: GroupedRoomListItem<R>) {
        match value {
            SdkGroupedRoomListItem::Room(room) => GroupedRoomListItem::Room { room },
            SdkGroupedRoomListItem::Space(space, room) => GroupedRoomListItem::Space {
                space,
                room,
            },
        }
    }
}

/// A change of the list.
pub type GroupedRoomListUpdate<R> = ListUpdate<GroupedRoomListItem<R>>;

/// Told of changes of the list.
pub trait GroupedRoomListEntriesListener<R> {
    fn on_update(&self, room_updates: Vec<GroupedRoomListUpdate<R>>);
}

} // verus!
