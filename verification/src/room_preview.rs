//! What is shown of a room that was not joined.

use vstd::prelude::*;

use crate::join_rule::JoinRule;
use crate::room::Membership;
use crate::text::same;

verus! {

/// What is shown of a room that was not joined.
pub struct RoomPreview {
    pub info: RoomPreviewInfo,
}

/// What is shown of a room that was not joined.
pub struct RoomPreviewInfo {
    pub room_id: String,
    pub canonical_alias: Option<String>,
    pub name: Option<String>,
    pub topic: Option<String>,
    pub avatar_url: Option<String>,
    pub num_joined_members: u64,
    /// The type of the room, if it is not an ordinary one.
    pub room_type: Option<String>,
    /// Whether anyone can see the history of the room.
    pub is_history_world_readable: bool,
    /// How the user is related to the room.
    pub membership: Membership,
    /// Who can join the room.
    pub join_rule: JoinRule,
}

/// What is known of a room, as the SDK has it.
pub struct SdkRoomPreview {
    pub room_id: String,
    pub canonical_alias: Option<String>,
    pub name: Option<String>,
    pub topic: Option<String>,
    pub avatar_url: Option<String>,
    pub num_joined_members: u64,
    pub room_type: Option<String>,
    pub is_world_readable: bool,
    pub state: Option<Membership>,
    /// The name of the join rule.
    pub join_rule: String,
}

/// The join rule that goes by a name: one that is not known is taken to be private,
/// and conditions are not known.
pub open spec fn preview_join_rule(name: Seq<char>, r: JoinRule) -> bool {
    if name == "public"@ {
        r is Public
    } else if name == "invite"@ {
        r is Invite
    } else if name == "knock"@ {
        r is Knock
    } else if name == "knock_restricted"@ {
        r matches JoinRule::KnockRestricted { rules } && rules@.len() == 0
    } else if name == "restricted"@ {
        r matches JoinRule::Restricted { rules } && rules@.len() == 0
    } else {
        r is Private
    }
}

impl JoinRule {
    /// The join rule that goes by a name.
    pub fn from_name(name: &str) -> (r: JoinRule)
        ensures
            preview_join_rule(name@, r),
    {
        if same(name, "public") {
            JoinRule::Public
        } else if same(name, "invite") {
            JoinRule::Invite
        } else if same(name, "knock") {
            JoinRule::Knock
        } else if same(name, "knock_restricted") {
            JoinRule::KnockRestricted { rules: Vec::new() }
        } else if same(name, "restricted") {
            JoinRule::Restricted { rules: Vec::new() }
        } else {
            JoinRule::Private
        }
    }
}

impl RoomPreview {
    /// What is shown of a room. A user of whom nothing is known is taken to have
    /// left.
    pub fn try_from_sdk(preview: SdkRoomPreview) -> (r: RoomPreview)
        ensures
            r.info == (RoomPreviewInfo {
                room_id: preview.room_id,
                canonical_alias: preview.canonical_alias,
                name: preview.name,
                topic: preview.topic,
                avatar_url: preview.avatar_url,
                num_joined_members: preview.num_joined_members,
                room_type: preview.room_type,
                is_history_world_readable: preview.is_world_readable,
                membership: match preview.state {
                    Some(state) => state,
                    None => Membership::Left,
                },
                join_rule: r.info.join_rule,
            }),
            preview_join_rule(preview.join_rule@, r.info.join_rule),
    {
        let membership: Membership = match preview.state {
            Some(state) => state,
            None => Membership::Left,
        };
        let join_rule: JoinRule = JoinRule::from_name(preview.join_rule.as_str());
        RoomPreview {
            info: RoomPreviewInfo {
                room_id: preview.room_id,
                canonical_alias: preview.canonical_alias,
                name: preview.name,
                topic: preview.topic,
                avatar_url: preview.avatar_url,
                num_joined_members: preview.num_joined_members,
                room_type: preview.room_type,
                is_history_world_readable: preview.is_world_readable,
                membership,
                join_rule,
            },
        }
    }
}

/// What is shown of a room that was not joined is what the homeserver said of it; who is not in
/// the room has left it, and a rule that is not known is taken for a private room.
pub proof fn previews_show_the_room(preview: SdkRoomPreview, r: RoomPreview)
    requires
        call_ensures(RoomPreview::try_from_sdk, (preview,), r),
    ensures
        r.info.room_id == preview.room_id && r.info.canonical_alias == preview.canonical_alias,
        r.info.name == preview.name && r.info.topic == preview.topic,
        r.info.avatar_url == preview.avatar_url && r.info.room_type == preview.room_type,
        r.info.num_joined_members == preview.num_joined_members,
        r.info.is_history_world_readable == preview.is_world_readable,
        preview.state is Some ==> r.info.membership == preview.state->0,
        preview.state is None ==> r.info.membership is Left,
        r.info.join_rule is Public <==> preview.join_rule@ == "public"@,
        r.info.join_rule is Invite <==> preview.join_rule@ == "invite"@,
        r.info.join_rule is Knock <==> preview.join_rule@ == "knock"@,
        r.info.join_rule is Restricted <==> preview.join_rule@ == "restricted"@,
        r.info.join_rule is KnockRestricted <==> preview.join_rule@ == "knock_restricted"@,
        !(r.info.join_rule is Custom),
{
    reveal_strlit("public");
    reveal_strlit("invite");
    reveal_strlit("knock");
    reveal_strlit("restricted");
    reveal_strlit("knock_restricted");
    assert("public"@.len() == 6 && "invite"@.len() == 6 && "knock"@.len() == 5);
    assert("restricted"@.len() == 10 && "knock_restricted"@.len() == 16);
    assert("public"@[0] == 'p' && "invite"@[0] == 'i');
}

} // verus!
