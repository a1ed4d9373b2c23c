//! Members of a room.

use ruma::UserId;
use vstd::prelude::*;

use crate::chunk_iterator::{chunk_len, ChunkIterator};
use crate::error::{context_error, text_error, texts_error, ClientError, NotYetImplemented};
use crate::ids::{user_id_refusal, IdParseError};
use crate::text::same;

verus! {

/// How a user is related to a room.
#[derive(Clone, Copy, Debug, PartialEq, Eq, Structural)]
pub enum MembershipState {
    /// The user is banned.
    Ban,
    /// The user has been invited.
    Invite,
    /// The user has joined.
    Join,
    /// The user has requested to join.
    Knock,
    /// The user has left.
    Leave,
}

/// What the `membership` of a member event says, if it is one that is known.
pub open spec fn membership_of(membership: Seq<char>) -> Option<MembershipState> {
    if membership == "ban"@ {
        Some(MembershipState::Ban)
    } else if membership == "invite"@ {
        Some(MembershipState::Invite)
    } else if membership == "join"@ {
        Some(MembershipState::Join)
    } else if membership == "knock"@ {
        Some(MembershipState::Knock)
    } else if membership == "leave"@ {
        Some(MembershipState::Leave)
    } else {
        None
    }
}

impl MembershipState {
    /// What the `membership` of a member event says.
    pub fn try_from(membership: &str) -> (r: Result<Self, NotYetImplemented>)
        ensures
            match membership_of(membership@) {
                Some(state) => r == Ok::<MembershipState, NotYetImplemented>(state),
                None => r is Err,
            },
    {
        if same(membership, "ban") {
            Ok(MembershipState::Ban)
        } else if same(membership, "invite") {
            Ok(MembershipState::Invite)
        } else if same(membership, "join") {
            Ok(MembershipState::Join)
        } else if same(membership, "knock") {
            Ok(MembershipState::Knock)
        } else if same(membership, "leave") {
            Ok(MembershipState::Leave)
        } else {
            Err(NotYetImplemented)
        }
    }
}

/// The role that a power level suggests.
#[derive(Clone, Copy, Debug, PartialEq, Eq, Structural)]
pub enum RoomMemberRole {
    Creator,
    Administrator,
    Moderator,
    User,
}

/// A member of a room.
pub struct RoomMember {
    pub user_id: String,
    pub display_name: Option<String>,
    pub avatar_url: Option<String>,
    pub membership: MembershipState,
    pub is_name_ambiguous: bool,
    pub power_level: i64,
    pub normalized_power_level: i64,
    pub is_ignored: bool,
    pub suggested_role_for_power_level: RoomMemberRole,
}

/// A member of a room, as the SDK has it.
pub struct SdkRoomMember {
    pub user_id: String,
    pub display_name: Option<String>,
    pub avatar_url: Option<String>,
    /// The `membership` of the member event.
    pub membership: String,
    pub is_name_ambiguous: bool,
    pub power_level: i64,
    pub normalized_power_level: i64,
    pub is_ignored: bool,
    pub suggested_role_for_power_level: RoomMemberRole,
}

/// A member with a membership that is known.
pub open spec fn member_of(m: SdkRoomMember) -> RoomMember {
    RoomMember {
        user_id: m.user_id,
        display_name: m.display_name,
        avatar_url: m.avatar_url,
        membership: membership_of(m.membership@)->0,
        is_name_ambiguous: m.is_name_ambiguous,
        power_level: m.power_level,
        normalized_power_level: m.normalized_power_level,
        is_ignored: m.is_ignored,
        suggested_role_for_power_level: m.suggested_role_for_power_level,
    }
}

/// Whether the membership of a member is known.
pub open spec fn has_known_membership(m: SdkRoomMember) -> bool {
    membership_of(m.membership@) is Some
}

impl RoomMember {
    /// What a member of the SDK becomes; its membership has to be known.
    pub fn try_from(m: SdkRoomMember) -> (r: Result<RoomMember, NotYetImplemented>)
        ensures
            r is Ok <==> has_known_membership(m),
            r matches Ok(member) ==> member == member_of(m),
    {
        match MembershipState::try_from(m.membership.as_str()) {
            Ok(membership) => Ok(
                RoomMember {
                    user_id: m.user_id,
                    display_name: m.display_name,
                    avatar_url: m.avatar_url,
                    membership,
                    is_name_ambiguous: m.is_name_ambiguous,
                    power_level: m.power_level,
                    normalized_power_level: m.normalized_power_level,
                    is_ignored: m.is_ignored,
                    suggested_role_for_power_level: m.suggested_role_for_power_level,
                },
            ),
            Err(error) => Err(error),
        }
    }

    /// The member that was looked up: they have to be there, and their membership
    /// has to be known.
    pub fn found(member: Option<SdkRoomMember>) -> (r: Result<RoomMember, ClientError>)
        ensures
            match member {
                None => r matches Err(error) && text_error("User not found"@, error),
                Some(m) => if has_known_membership(m) {
                    r == Ok::<RoomMember, ClientError>(member_of(m))
                } else {
                    &&& r matches Err(error)
                    &&& context_error(
                        "Unknown state membership"@,
                        "not implemented yet"@,
                        error,
                    )
                },
            },
    {
        match member {
            None => Err(ClientError::from_text("User not found")),
            Some(m) => match RoomMember::try_from(m) {
                Ok(member) => Ok(member),
                Err(error) => Err(
                    ClientError::from_context(
                        "Unknown state membership",
                        error.to_string().as_str(),
                    ),
                ),
            },
        }
    }
}

/// Hands out the members of a room chunk by chunk.
pub struct RoomMembersIterator {
    pub chunk_iterator: ChunkIterator<SdkRoomMember>,
}

/// The members whose membership is known, in their order.
pub open spec fn known_members(members: Seq<SdkRoomMember>) -> Seq<RoomMember> {
    members.filter(|m: SdkRoomMember| has_known_membership(m)).map_values(
        |m: SdkRoomMember| member_of(m),
    )
}

/// The members whose membership is known, in their order.
fn keep_known_members(members: Vec<SdkRoomMember>) -> (r: Vec<RoomMember>)
    ensures
        r@ == known_members(members@),
{
    let ghost all = members@;
    let ghost keep = |m: SdkRoomMember| has_known_membership(m);
    let ghost f = |m: SdkRoomMember| member_of(m);
    let mut out: Vec<RoomMember> = Vec::new();
    proof {
        reveal(Seq::filter);
        assert(all.take(0).filter(keep).map_values(f) =~= Seq::empty());
    }
    for m in iter: members.into_iter()
        invariant
            iter.seq() == all,
            keep == (|m: SdkRoomMember| has_known_membership(m)),
            f == (|m: SdkRoomMember| member_of(m)),
            out@ == all.take(iter.index()).filter(keep).map_values(f),
    {
        let ghost i = iter.index();
        let ghost before = all.take(i).filter(keep);
        proof {
            reveal(Seq::filter);
            assert(all.take(i + 1).drop_last() =~= all.take(i));
            assert(all.take(i + 1).last() == all[i]);
        }
        if let Ok(member) = RoomMember::try_from(m) {
            out.push(member);
            proof {
                assert(out@ =~= before.push(all[i]).map_values(f));
            }
        }
    }
    proof {
        assert(all.take(all.len() as int) =~= all);
    }
    out
}

impl RoomMembersIterator {
    /// Hands out these members.
    pub fn new(members: Vec<SdkRoomMember>) -> (r: RoomMembersIterator)
        ensures
            r.chunk_iterator@ == members@,
    {
        RoomMembersIterator { chunk_iterator: ChunkIterator::new(members) }
    }

    /// How many members have not been handed out.
    pub fn len(&self) -> (r: u32)
        requires
            self.chunk_iterator@.len() <= u32::MAX,
        ensures
            r == self.chunk_iterator@.len(),
    {
        self.chunk_iterator.len()
    }

    /// The next members, as many as asked for or as are left, without those whose
    /// membership is not known; none once everyone has been handed out.
    pub fn next_chunk(&mut self, chunk_size: u32) -> (r: Option<Vec<RoomMember>>)
        ensures
            r is Some <==> old(self).chunk_iterator@.len() > 0,
            r is None ==> final(self).chunk_iterator@ == old(self).chunk_iterator@,
            r matches Some(members) ==> {
                let n = chunk_len(old(self).chunk_iterator@.len(), chunk_size) as int;
                &&& members@ == known_members(old(self).chunk_iterator@.take(n))
                &&& final(self).chunk_iterator@ == old(self).chunk_iterator@.skip(n)
            },
    {
        match self.chunk_iterator.next(chunk_size) {
            Some(members) => Some(keep_known_members(members)),
            None => None,
        }
    }
}

/// The `matrix.to` link to a user.
pub uninterp spec fn user_permalink(user_id: Seq<char>) -> Seq<char>;

/// `ruma::UserId::parse`, then `ruma::UserId::matrix_to_uri`. Claimed: a user ID is
/// refused as `user_id_refusal` says; the link to any other depends on the user ID
/// alone.
#[verifier::external_body]
fn link_to_user(user_id: &str) -> (r: Result<String, IdParseError>)
    ensures
        match r {
            Ok(link) => user_id_refusal(user_id@) is None && link@ == user_permalink(user_id@),
            Err(error) => user_id_refusal(user_id@) == Some((error.message@, error.debug@)),
        },
{
    match UserId::parse(user_id) {
        Ok(user) => Ok(user.matrix_to_uri().to_string()),
        Err(error) => Err(
            IdParseError { message: error.to_string(), debug: format!("{error:?}") },
        ),
    }
}

/// The `matrix.to` link to a user, who has to be named by their user ID.
pub fn matrix_to_user_permalink(user_id: String) -> (r: Result<String, ClientError>)
    ensures
        match user_id_refusal(user_id@) {
            None => r matches Ok(link) && link@ == user_permalink(user_id@),
            Some(texts) => r matches Err(error) && texts_error(texts, error),
        },
{
    match link_to_user(user_id.as_str()) {
        Ok(link) => Ok(link),
        Err(error) => Err(ClientError::from_id_parse_error(error)),
    }
}

/// A member is shown as the SDK has them, each thing by its own name, with the membership that
/// its name stands for; one whose membership is not known is not shown.
pub proof fn members_are_shown(
    m: SdkRoomMember,
    r: Result<RoomMember, NotYetImplemented>,
    found: Result<RoomMember, ClientError>,
    nobody: Result<RoomMember, ClientError>,
)
    requires
        call_ensures(RoomMember::try_from, (m,), r),
        call_ensures(RoomMember::found, (Some(m),), found),
        call_ensures(RoomMember::found, (None,), nobody),
    ensures
        nobody is Err,
        found is Ok <==> r is Ok,
        r is Ok ==> found->Ok_0 == r->Ok_0,
        r is Ok <==> m.membership@ == "ban"@ || m.membership@ == "invite"@ || m.membership@
            == "join"@ || m.membership@ == "knock"@ || m.membership@ == "leave"@,
        r matches Ok(member) ==> {
            &&& member.user_id == m.user_id && member.display_name == m.display_name
            &&& member.avatar_url == m.avatar_url && member.is_ignored == m.is_ignored
            &&& member.is_name_ambiguous == m.is_name_ambiguous
            &&& member.power_level == m.power_level
            &&& member.normalized_power_level == m.normalized_power_level
            &&& member.suggested_role_for_power_level == m.suggested_role_for_power_level
            &&& member.membership is Ban <==> m.membership@ == "ban"@
            &&& member.membership is Invite <==> m.membership@ == "invite"@
            &&& member.membership is Join <==> m.membership@ == "join"@
            &&& member.membership is Knock <==> m.membership@ == "knock"@
            &&& member.membership is Leave <==> m.membership@ == "leave"@
        },
{
    reveal_strlit("ban");
    reveal_strlit("invite");
    reveal_strlit("join");
    reveal_strlit("knock");
    reveal_strlit("leave");
    assert("ban"@.len() == 3 && "invite"@.len() == 6 && "join"@.len() == 4);
    assert("knock"@.len() == 5 && "leave"@.len() == 5);
    assert("knock"@[0] == 'k' && "leave"@[0] == 'l');
}

/// Every member whose membership is known is handed out, in their order, and nobody else.
pub proof fn known_members_are_handed_out(members: Seq<SdkRoomMember>, m: SdkRoomMember)
    ensures
        known_members(Seq::<SdkRoomMember>::empty()).len() == 0,
        known_members(members.push(m)) == (if membership_of(m.membership@) is Some {
            known_members(members).push(member_of(m))
        } else {
            known_members(members)
        }),
{
    reveal(Seq::filter);
    let keep = |m: SdkRoomMember| has_known_membership(m);
    let f = |m: SdkRoomMember| member_of(m);
    assert(members.push(m).drop_last() =~= members);
    assert(known_members(members.push(m)) =~= (if membership_of(m.membership@) is Some {
        known_members(members).push(member_of(m))
    } else {
        known_members(members)
    }));
}

/// Memberships are known by these names, and users are linked to by their IDs.
pub proof fn memberships_are_named(
    name: &str,
    r: Result<MembershipState, NotYetImplemented>,
    user_id: String,
    link: Result<String, ClientError>,
)
    requires
        call_ensures(MembershipState::try_from, (name,), r),
        call_ensures(matrix_to_user_permalink, (user_id,), link),
    ensures
        r matches Ok(state) ==> match state {
            MembershipState::Ban => name@ == "ban"@,
            MembershipState::Invite => name@ == "invite"@,
            MembershipState::Join => name@ == "join"@,
            MembershipState::Knock => name@ == "knock"@,
            MembershipState::Leave => name@ == "leave"@,
        },
        r is Err ==> name@ != "ban"@ && name@ != "invite"@ && name@ != "join"@ && name@ != "knock"@
            && name@ != "leave"@,
        link is Ok <==> user_id_refusal(user_id@) is None,
        link is Ok ==> link->Ok_0@ == user_permalink(user_id@),
{
}

/// The members that are handed out next are those of the next chunk whose membership is known, and
/// no more than were asked for; the others are handed out later.
pub proof fn members_come_in_order(
    members: &mut RoomMembersIterator,
    chunk_size: u32,
    r: Option<Vec<RoomMember>>,
    all: Vec<SdkRoomMember>,
    made: RoomMembersIterator,
)
    requires
        call_ensures(RoomMembersIterator::next_chunk, (members, chunk_size), r),
        call_ensures(RoomMembersIterator::new, (all,), made),
    ensures
        made.chunk_iterator@ == all@,
        r is None <==> mut_ref_current(members).chunk_iterator@.len() == 0,
        r matches Some(chunk) ==> {
            let before = mut_ref_current(members).chunk_iterator@;
            let after = mut_ref_future(members).chunk_iterator@;
            &&& after.len() <= before.len() && before.len() - after.len() <= chunk_size
            &&& after == before.subrange(before.len() - after.len(), before.len() as int)
            &&& chunk@.len() <= before.len() - after.len()
            &&& forall|i: int|
                0 <= i < before.len() - after.len() && has_known_membership(#[trigger] before[i])
                    ==> chunk@.contains(member_of(before[i]))
        },
{
    if let Some(chunk) = r {
        let before = mut_ref_current(members).chunk_iterator@;
        let after = mut_ref_future(members).chunk_iterator@;
        let n = chunk_len(before.len(), chunk_size) as int;
        let head = before.take(n);
        let keep = |m: SdkRoomMember| has_known_membership(m);
        let kept = head.filter(keep);
        assert(after =~= before.subrange(before.len() - after.len(), before.len() as int));
        head.lemma_filter_len(keep);
        assert forall|i: int|
            0 <= i < n && has_known_membership(#[trigger] before[i]) implies chunk@.contains(
            member_of(before[i]),
        ) by {
            assert(head[i] == before[i]);
            head.lemma_filter_contains(keep, i);
            let k = choose|k: int| 0 <= k < kept.len() && kept[k] == head[i];
            assert(chunk@[k] == member_of(before[i]));
        }
    }
}

} // verus!
