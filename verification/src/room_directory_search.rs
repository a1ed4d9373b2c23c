//! Searching for public rooms.

use vstd::prelude::*;

use crate::error::{texts_error, ClientError};
use crate::ids::{check_server_name, server_name_refusal};
use crate::list_update::{are_items, items_of, ListItem, ListUpdate};
use crate::text::{concat2, debug_text, debug_text_of, same};

verus! {

/// Who can join a public room.
#[derive(Clone, Copy, Debug, PartialEq, Eq, Structural)]
pub enum PublicRoomJoinRule {
    Public,
    Knock,
    Restricted,
    KnockRestricted,
    Invite,
}

/// The rule that goes by a name, if it is one that is supported.
pub open spec fn public_join_rule(name: Seq<char>) -> Option<PublicRoomJoinRule> {
    if name == "public"@ {
        Some(PublicRoomJoinRule::Public)
    } else if name == "knock"@ {
        Some(PublicRoomJoinRule::Knock)
    } else if name == "restricted"@ {
        Some(PublicRoomJoinRule::Restricted)
    } else if name == "knock_restricted"@ {
        Some(PublicRoomJoinRule::KnockRestricted)
    } else if name == "invite"@ {
        Some(PublicRoomJoinRule::Invite)
    } else {
        None
    }
}

impl PublicRoomJoinRule {
    /// The rule that goes by a name.
    pub fn try_from(name: &str) -> (r: Result<PublicRoomJoinRule, String>)
        ensures
            match public_join_rule(name@) {
                Some(rule) => r == Ok::<PublicRoomJoinRule, String>(rule),
                None => r matches Err(text) && text@ == "unsupported join rule: "@ + debug_text_of(
                    name@,
                ),
            },
    {
        if same(name, "public") {
            Ok(PublicRoomJoinRule::Public)
        } else if same(name, "knock") {
            Ok(PublicRoomJoinRule::Knock)
        } else if same(name, "restricted") {
            Ok(PublicRoomJoinRule::Restricted)
        } else if same(name, "knock_restricted") {
            Ok(PublicRoomJoinRule::KnockRestricted)
        } else if same(name, "invite") {
            Ok(PublicRoomJoinRule::Invite)
        } else {
            Err(concat2("unsupported join rule: ", debug_text(name).as_str()))
        }
    }
}

/// What is shown of a public room.
pub struct RoomDescription {
    pub room_id: String,
    pub name: Option<String>,
    pub topic: Option<String>,
    pub alias: Option<String>,
    pub avatar_url: Option<String>,
    pub join_rule: Option<PublicRoomJoinRule>,
    pub is_world_readable: bool,
    pub joined_members: u64,
}

/// What is known of a public room, as the SDK has it.
pub struct SdkRoomDescription {
    pub room_id: String,
    pub name: Option<String>,
    pub topic: Option<String>,
    pub alias: Option<String>,
    pub avatar_url: Option<String>,
    /// The name of the join rule.
    pub join_rule: String,
    pub is_world_readable: bool,
    pub joined_members: u64,
}

/// What is shown of a public room: a join rule that is not supported is left out.
pub open spec fn description_of(value: SdkRoomDescription) -> RoomDescription {
    RoomDescription {
        room_id: value.room_id,
        name: value.name,
        topic: value.topic,
        alias: value.alias,
        avatar_url: value.avatar_url,
        join_rule: public_join_rule(value.join_rule@),
        is_world_readable: value.is_world_readable,
        joined_members: value.joined_members,
    }
}

impl ListItem<SdkRoomDescription> for RoomDescription {
    open spec fn is_item(value: SdkRoomDescription, item: RoomDescription) -> bool {
        item == description_of(value)
    }

    fn from_element(value: SdkRoomDescription) -> (item: RoomDescription) {
        let join_rule: Option<PublicRoomJoinRule> = match PublicRoomJoinRule::try_from(
            value.join_rule.as_str(),
        ) {
            Ok(rule) => Some(rule),
            Err(_) => None,
        };
        RoomDescription {
            room_id: value.room_id,
            name: value.name,
            topic: value.topic,
            alias: value.alias,
            avatar_url: value.avatar_url,
            join_rule,
            is_world_readable: value.is_world_readable,
            joined_members: value.joined_members,
        }
    }
}

/// A change of the results.
pub type RoomDirectorySearchEntryUpdate = ListUpdate<RoomDescription>;

/// Told of changes of the results.
pub trait RoomDirectorySearchEntriesListener {
    fn on_update(&self, room_entries_update: Vec<RoomDirectorySearchEntryUpdate>);
}

/// The first update of a list: all that is in it.
pub fn first_update<T, U: ListItem<T>>(values: Vec<T>) -> (r: ListUpdate<U>)
    ensures
        r matches ListUpdate::Reset { values: items } && are_items::<T, U>(values@, items@),
{
    ListUpdate::Reset { values: items_of(values) }
}

/// The server to search at, if it is not the homeserver. It has to be named by its
/// server name.
pub fn search_server(via_server_name: Option<String>) -> (r: Result<Option<String>, ClientError>)
    ensures
        match via_server_name {
            None => r == Ok::<Option<String>, ClientError>(None),
            Some(name) => match server_name_refusal(name@) {
                None => r == Ok::<Option<String>, ClientError>(Some(name)),
                Some(texts) => r matches Err(error) && texts_error(texts, error),
            },
        },
{
    match via_server_name {
        None => Ok(None),
        Some(name) => match check_server_name(name.as_str()) {
            Ok(()) => Ok(Some(name)),
            Err(error) => Err(error),
        },
    }
}

/// How many pages were loaded, in 32 bits.
pub fn loaded_pages(pages: usize) -> (r: u32)
    ensures
        r == pages as u32,
{
    #[verifier::truncate]
    (pages as u32)
}

/// A public room is described as the directory does it, each thing by its own name.
pub proof fn rooms_are_described(value: SdkRoomDescription, item: RoomDescription)
    requires
        <RoomDescription as ListItem<SdkRoomDescription>>::is_item(value, item),
    ensures
        item.room_id == value.room_id && item.name == value.name && item.topic == value.topic,
        item.alias == value.alias && item.avatar_url == value.avatar_url,
        item.is_world_readable == value.is_world_readable && item.joined_members
            == value.joined_members,
        item.join_rule == Some(PublicRoomJoinRule::Public) <==> value.join_rule@ == "public"@,
        item.join_rule == Some(PublicRoomJoinRule::Knock) <==> value.join_rule@ == "knock"@,
        item.join_rule == Some(PublicRoomJoinRule::Restricted) <==> value.join_rule@
            == "restricted"@,
        item.join_rule == Some(PublicRoomJoinRule::KnockRestricted) <==> value.join_rule@
            == "knock_restricted"@,
        item.join_rule == Some(PublicRoomJoinRule::Invite) <==> value.join_rule@ == "invite"@,
{
    reveal_strlit("public");
    reveal_strlit("knock");
    reveal_strlit("restricted");
    reveal_strlit("knock_restricted");
    reveal_strlit("invite");
    assert("public"@.len() == 6 && "knock"@.len() == 5 && "restricted"@.len() == 10);
    assert("knock_restricted"@.len() == 16 && "invite"@.len() == 6);
    assert("public"@[0] == 'p' && "invite"@[0] == 'i');
}

/// Rooms are searched for at the server that was named, if it was by its server name, or else at the
/// homeserver; and the pages that were loaded are counted as they are.
pub proof fn rooms_are_searched_for_where_asked(
    server: Option<String>,
    r: Result<Option<String>, ClientError>,
    pages: u32,
    counted: u32,
    name: &str,
    rule: Result<PublicRoomJoinRule, String>,
)
    requires
        call_ensures(search_server, (server,), r),
        call_ensures(loaded_pages, (pages as usize,), counted),
        call_ensures(PublicRoomJoinRule::try_from, (name,), rule),
    ensures
        server is None ==> r == Ok::<Option<String>, ClientError>(None),
        server is Some ==> (r is Ok <==> server_name_refusal(server->0@) is None),
        r is Ok ==> r->Ok_0 == server,
        counted == pages,
        rule == Ok::<PublicRoomJoinRule, String>(PublicRoomJoinRule::Public) ==> name@ == "public"@,
        rule == Ok::<PublicRoomJoinRule, String>(PublicRoomJoinRule::Knock) ==> name@ == "knock"@,
        rule == Ok::<PublicRoomJoinRule, String>(PublicRoomJoinRule::Restricted) ==> name@
            == "restricted"@,
        rule == Ok::<PublicRoomJoinRule, String>(PublicRoomJoinRule::KnockRestricted) ==> name@
            == "knock_restricted"@,
        rule == Ok::<PublicRoomJoinRule, String>(PublicRoomJoinRule::Invite) ==> name@ == "invite"@,
{
}

/// The first update has everything that is known, one for one.
pub proof fn the_first_update_has_everything<T, U: ListItem<T>>(values: Vec<T>, r: ListUpdate<U>, i: int)
    requires
        call_ensures(first_update::<T, U>, (values,), r),
    ensures
        r is Reset && r->Reset_values@.len() == values@.len(),
        0 <= i < values@.len() ==> U::is_item(values@[i], r->Reset_values@[i]),
{
}

} // verus!
