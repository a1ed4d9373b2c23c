//! Rooms.

use ruma::RoomAliasId;
use vstd::prelude::*;

use crate::error::{context_error, text_error, texts_error, ClientError};
use crate::event::{
    canonical_timeline_type, message_kind, RoomMessageEventMessageType, TimelineEvent,
};
use crate::event_filter::{lets_through, TimelineEventTypeFilter};
use crate::ids::{
    check_event_id, check_room_alias_id, check_server_name, check_user_id, event_id_refusal,
    id_checked, is_safe_int, parse_user_id, parse_user_server_name, room_alias_id_refusal,
    safe_int, safe_uint, server_name_refusal, user_id_refusal, IdParseError,
};
use crate::json::{json_reading, read_json};
use crate::text::{concat2, split_once_spec};

verus! {

/// How the user is related to a room.
#[derive(Clone, Copy, Debug, PartialEq, Eq, Structural)]
pub enum Membership {
    Invited,
    Joined,
    Left,
    Knocked,
    Banned,
}

impl Membership {
    /// The name of the membership.
    pub open spec fn name(self) -> Seq<char> {
        match self {
            Membership::Invited => "Invited"@,
            Membership::Joined => "Joined"@,
            Membership::Left => "Left"@,
            Membership::Knocked => "Knocked"@,
            Membership::Banned => "Banned"@,
        }
    }

    /// The name of the membership.
    pub fn as_str(&self) -> (r: &'static str)
        ensures
            r@ == self.name(),
    {
        match self {
            Membership::Invited => "Invited",
            Membership::Joined => "Joined",
            Membership::Left => "Left",
            Membership::Knocked => "Knocked",
            Membership::Banned => "Banned",
        }
    }
}

/// Told of changes of a room. `I` is what is known of the room.
pub trait RoomInfoListener<I> {
    fn call(&self, room_info: I);
}

/// Told who is typing.
pub trait TypingNotificationsListener {
    fn call(&self, typing_user_ids: Vec<String>);
}

/// Told of changes of the identities of members. `C` is a change.
pub trait IdentityStatusChangeListener<C> {
    fn call(&self, identity_status_change: Vec<C>);
}

/// Told who declined a call.
pub trait CallDeclineListener {
    fn call(&self, decliner_user_id: String);
}

/// Told of requests to join a room. `A` is what can be done about one.
pub trait KnockRequestsListener<A> {
    fn call(&self, join_requests: Vec<KnockRequest<A>>);
}

/// A request to join a room.
pub struct KnockRequest<A> {
    /// The event of the request.
    pub event_id: String,
    /// Who asks to join.
    pub user_id: String,
    /// The room that they ask to join.
    pub room_id: String,
    pub display_name: Option<String>,
    pub avatar_url: Option<String>,
    /// Why they ask to join.
    pub reason: Option<String>,
    /// When they asked to join, in milliseconds since the Unix epoch.
    pub timestamp: Option<u64>,
    /// Whether the request was marked as seen.
    pub is_seen: bool,
    /// What can be done about the request.
    pub actions: A,
}

/// A member after whom a room can be named.
pub struct RoomHero {
    pub user_id: String,
    pub display_name: Option<String>,
    pub avatar_url: Option<String>,
}

/// The room that replaces another one.
pub struct SuccessorRoom {
    pub room_id: String,
    /// Why the room was replaced.
    pub reason: Option<String>,
}

/// The room that is replaced by another one.
pub struct PredecessorRoom {
    pub room_id: String,
}

/// The member who invited the user: there is one only for a room that the user is
/// invited to.
pub fn inviter<M>(membership: Membership, invited_by: Option<M>) -> (r: Option<M>)
    ensures
        r == (if membership == Membership::Invited {
            invited_by
        } else {
            None
        }),
{
    if membership == Membership::Invited {
        invited_by
    } else {
        None
    }
}

/// The event that is shown as the latest one of a room: that of the timeline if it
/// is yet to be sent, or else the one that was stored.
pub fn latest_event<E>(timeline_event: Option<(E, bool)>, stored: Option<E>) -> (r: Option<E>)
    ensures
        r == (match timeline_event {
            Some((event, true)) => Some(event),
            _ => stored,
        }),
{
    match timeline_event {
        Some((event, is_local_echo)) => if is_local_echo {
            Some(event)
        } else {
            stored
        },
        None => stored,
    }
}

/// What is known of a member who was looked up, who has to be there.
pub fn found_member<M>(member: Option<M>) -> (r: Result<M, ClientError>)
    ensures
        match member {
            Some(member) => r == Ok::<M, ClientError>(member),
            None => r matches Err(error) && text_error("User not found"@, error),
        },
{
    match member {
        Some(member) => Ok(member),
        None => Err(ClientError::from_text("User not found")),
    }
}

/// Checks the name of a user who is to be invited.
pub fn check_invited_user(user_id: &str) -> (r: Result<(), ClientError>)
    ensures
        match user_id_refusal(user_id@) {
            None => r is Ok,
            Some(texts) => r matches Err(error) && context_error(
                "Could not create user from string"@,
                texts.0,
                error,
            ),
        },
{
    match parse_user_id(user_id) {
        Ok(()) => Ok(()),
        Err(error) => Err(
            ClientError::from_context("Could not create user from string", error.message.as_str()),
        ),
    }
}

/// The power level that a user is to have.
pub struct UserPowerLevelUpdate {
    pub user_id: String,
    pub power_level: i64,
}

/// What is wrong with a power level that a user is to have, if anything is: the user
/// has to be named by their ID, and the level has to be an integer that JSON numbers
/// can hold.
pub open spec fn level_update_refusal(update: UserPowerLevelUpdate) -> Option<Seq<char>> {
    match user_id_refusal(update.user_id@) {
        Some(texts) => Some(texts.0),
        None => if is_safe_int(update.power_level as int) {
            None
        } else {
            Some("Invalid power level"@)
        },
    }
}

/// What is wrong with a power level that a user is to have, if anything is.
fn check_level_update(update: &UserPowerLevelUpdate) -> (r: Result<(), ClientError>)
    ensures
        match level_update_refusal(*update) {
            None => r is Ok,
            Some(text) => r matches Err(error) && text_error(text, error),
        },
{
    match parse_user_id(update.user_id.as_str()) {
        Ok(()) => {},
        Err(error) => return Err(ClientError::from_text(error.message.as_str())),
    }
    match safe_int(update.power_level) {
        Some(_) => Ok(()),
        None => Err(ClientError::from_text("Invalid power level")),
    }
}

/// Checks the power levels that users are to have. The first that is wrong is the
/// error.
pub fn check_power_level_updates(updates: &Vec<UserPowerLevelUpdate>) -> (r: Result<
    (),
    ClientError,
>)
    ensures
        match r {
            Ok(()) => forall|i: int|
                0 <= i < updates@.len() ==> level_update_refusal(#[trigger] updates@[i]) is None,
            Err(error) => exists|i: int|
                {
                    &&& 0 <= i < updates@.len()
                    &&& level_update_refusal(#[trigger] updates@[i]) matches Some(text)
                    &&& text_error(text, error)
                    &&& forall|j: int|
                        0 <= j < i ==> level_update_refusal(#[trigger] updates@[j]) is None
                },
        },
{
    let mut i: usize = 0;
    while i < updates.len()
        invariant
            i <= updates.len(),
            forall|j: int| 0 <= j < i ==> level_update_refusal(#[trigger] updates@[j]) is None,
        decreases updates.len() - i,
    {
        match check_level_update(&updates[i]) {
            Ok(()) => {},
            Err(error) => {
                assert(level_update_refusal(updates@[i as int]) is Some);
                return Err(error);
            },
        }
        i = i + 1;
    }
    Ok(())
}

/// The content of an event that is sent as it is: it has to be JSON.
pub fn raw_content(content: &str) -> (r: Result<String, ClientError>)
    ensures
        match json_reading(content@) {
            Ok(compact) => r matches Ok(text) && text@ == compact,
            Err(texts) => r matches Err(error) && texts_error(
                ("Failed to parse JSON: "@ + texts.0, texts.1),
                error,
            ),
        },
{
    match read_json(content) {
        Ok(compact) => Ok(compact),
        Err(error) => {
            let message: String = concat2("Failed to parse JSON: ", error.message.as_str());
            Err(ClientError::from_err(message.as_str(), error.debug))
        },
    }
}

/// Whether a kind of message is one of these.
fn has_kind(types: &Vec<RoomMessageEventMessageType>, kind: RoomMessageEventMessageType) -> (r:
    bool)
    ensures
        r == types@.contains(kind),
{
    let mut i: usize = 0;
    while i < types.len()
        invariant
            i <= types.len(),
            forall|j: int| 0 <= j < i ==> types@[j] != kind,
        decreases types.len() - i,
    {
        if types[i] == kind {
            return true;
        }
        i = i + 1;
    }
    false
}

/// Whether a timeline of some messages only has an event in it. The type is that of
/// the message, if the event is one that was not redacted.
pub fn is_wanted_message(
    is_shown: bool,
    types: &Vec<RoomMessageEventMessageType>,
    msgtype: Option<&str>,
) -> (r: bool)
    ensures
        r == (is_shown && (match msgtype {
            Some(msgtype) => types@.contains(message_kind(msgtype@)),
            None => false,
        })),
{
    match msgtype {
        Some(msgtype) => is_shown && has_kind(types, RoomMessageEventMessageType::from(msgtype)),
        None => false,
    }
}

/// Which events a timeline has in it, of those that timelines have by default.
pub enum TimelineFilter {
    /// All of them.
    All,
    /// The messages of these types.
    OnlyMessage { types: Vec<RoomMessageEventMessageType> },
    /// Those that pass a filter.
    EventFilter { filter: TimelineEventTypeFilter },
}

impl TimelineFilter {
    /// Whether a timeline has an event in it, given any name of its type. The type of
    /// the message is given if the event is one that was not redacted.
    pub fn shows(&self, is_shown: bool, event_type: &str, msgtype: Option<&str>) -> (r: bool)
        ensures
            r == (is_shown && match *self {
                TimelineFilter::All => true,
                TimelineFilter::OnlyMessage { types } => match msgtype {
                    Some(msgtype) => types@.contains(message_kind(msgtype@)),
                    None => false,
                },
                TimelineFilter::EventFilter { filter } => lets_through(
                    filter,
                    canonical_timeline_type(event_type@),
                ),
            }),
    {
        match self {
            TimelineFilter::All => is_shown,
            TimelineFilter::OnlyMessage { types } => is_wanted_message(is_shown, types, msgtype),
            TimelineFilter::EventFilter { filter } => is_shown && filter.filter(event_type),
        }
    }
}

/// Checks that there is a hook to report events to that cannot be decrypted, if they
/// are to be reported.
pub fn check_utd_hook(report_utds: bool, has_hook: bool) -> (r: Result<(), ClientError>)
    ensures
        r is Ok <==> report_utds ==> has_hook,
        r matches Err(error) ==> {
            &&& error matches ClientError::Generic { msg, details }
            &&& msg@
                == "Failed creating timeline because the configuration is set to report UTDs but no hook manager is set"@
            &&& details is None
        },
{
    if report_utds && !has_hook {
        Err(
            ClientError::from_str(
                "Failed creating timeline because the configuration is set to report UTDs but no hook manager is set",
                None,
            ),
        )
    } else {
        Ok(())
    }
}

/// A subscription to a thread.
#[derive(Clone, Copy, Debug, PartialEq, Eq, Structural)]
pub struct ThreadSubscription {
    /// Whether it was not asked for by the user.
    pub automatic: bool,
}

/// What to do about a subscription to a thread.
#[derive(Clone, Copy, Debug, PartialEq, Eq, Structural)]
pub enum ThreadSubscriptionChange {
    /// Subscribe, because the user asked for it.
    Subscribe,
    Unsubscribe,
}

/// What to do about a subscription to a thread, which has to be named by the ID of
/// its first event.
pub fn set_thread_subscription(thread_root_event_id: &str, subscribed: bool) -> (r: Result<
    ThreadSubscriptionChange,
    ClientError,
>)
    ensures
        match event_id_refusal(thread_root_event_id@) {
            None => r == Ok::<ThreadSubscriptionChange, ClientError>(
                if subscribed {
                    ThreadSubscriptionChange::Subscribe
                } else {
                    ThreadSubscriptionChange::Unsubscribe
                },
            ),
            Some(texts) => r matches Err(error) && texts_error(texts, error),
        },
{
    match check_event_id(thread_root_event_id) {
        Ok(()) => if subscribed {
            Ok(ThreadSubscriptionChange::Subscribe)
        } else {
            Ok(ThreadSubscriptionChange::Unsubscribe)
        },
        Err(error) => Err(error),
    }
}

/// Which threads are listed.
#[derive(Clone, Copy, Debug, PartialEq, Eq, Structural)]
pub enum IncludeThreads {
    /// All of them.
    All,
    /// Those that the user took part in.
    Participated,
}

/// What to list of the threads of a room.
pub struct ListThreadsOptions {
    /// Which threads.
    pub include_threads: IncludeThreads,
    /// Where to start.
    pub from: Option<String>,
    /// How many at most.
    pub limit: Option<u64>,
}

impl ListThreadsOptions {
    /// The options of the request: a limit that JSON numbers cannot hold is left
    /// out.
    pub fn for_request(self) -> (r: ListThreadsOptions)
        ensures
            r.include_threads == self.include_threads,
            r.from == self.from,
            r.limit == (match self.limit {
                Some(limit) => if is_safe_int(limit as int) {
                    Some(limit)
                } else {
                    None
                },
                None => None,
            }),
    {
        let limit: Option<u64> = match self.limit {
            Some(limit) => safe_uint(limit),
            None => None,
        };
        ListThreadsOptions { include_threads: self.include_threads, from: self.from, limit }
    }
}

/// The threads of a room.
pub struct ThreadRoots {
    /// The first event of each.
    pub chunk: Vec<TimelineEvent>,
    /// Where to go on.
    pub prev_batch_token: Option<String>,
}

/// Whether an event could be read.
pub open spec fn is_read(event: Option<TimelineEvent>) -> bool {
    event is Some
}

impl ThreadRoots {
    /// The threads of an answer; an event that could not be read is left out.
    pub fn new(events: Vec<Option<TimelineEvent>>, prev_batch_token: Option<String>) -> (r:
        ThreadRoots)
        ensures
            r.chunk@ == events@.filter(|event: Option<TimelineEvent>| is_read(event)).map_values(
                |event: Option<TimelineEvent>| event->0,
            ),
            r.prev_batch_token == prev_batch_token,
    {
        let ghost all = events@;
        let ghost keep = |event: Option<TimelineEvent>| is_read(event);
        let ghost f = |event: Option<TimelineEvent>| event->0;
        let mut chunk: Vec<TimelineEvent> = Vec::new();
        proof {
            reveal(Seq::filter);
            assert(all.take(0).filter(keep).map_values(f) =~= Seq::empty());
        }
        for event in iter: events.into_iter()
            invariant
                iter.seq() == all,
                keep == (|event: Option<TimelineEvent>| is_read(event)),
                f == (|event: Option<TimelineEvent>| event->0),
                chunk@ == all.take(iter.index()).filter(keep).map_values(f),
        {
            let ghost i = iter.index();
            let ghost before = all.take(i).filter(keep);
            proof {
                reveal(Seq::filter);
                assert(all.take(i + 1).drop_last() =~= all.take(i));
                assert(all.take(i + 1).last() == all[i]);
            }
            if let Some(event) = event {
                chunk.push(event);
                proof {
                    assert(chunk@ =~= before.push(all[i]).map_values(f));
                }
            }
        }
        proof {
            assert(all.take(all.len() as int) =~= all);
        }
        ThreadRoots { chunk, prev_batch_token }
    }
}

/// Where a room is looked for that is to be previewed.
pub struct PreviewTarget {
    /// The alias of the room, or else its ID.
    pub room_or_alias_id: String,
    /// The servers to ask.
    pub server_names: Vec<String>,
}

/// The texts with which the first text that is not a server name is refused, if
/// there is one.
pub open spec fn first_server_refusal(names: Seq<String>) -> Option<(Seq<char>, Seq<char>)>
    decreases names.len(),
{
    if names.len() == 0 {
        None
    } else if first_server_refusal(names.drop_last()) is Some {
        first_server_refusal(names.drop_last())
    } else {
        server_name_refusal(names.last()@)
    }
}

/// What the first texts are refused with, all of them are refused with.
proof fn lemma_first_server_refusal_stays(names: Seq<String>, n: int)
    requires
        0 <= n <= names.len(),
        first_server_refusal(names.take(n)) is Some,
    ensures
        first_server_refusal(names) == first_server_refusal(names.take(n)),
    decreases names.len() - n,
{
    if n < names.len() {
        assert(names.take(n + 1).drop_last() =~= names.take(n));
        lemma_first_server_refusal_stays(names, n + 1);
    } else {
        assert(names.take(n) =~= names);
    }
}

/// Checks that all of the texts are server names. The first that is none is the
/// error.
pub fn check_server_names(names: &Vec<String>) -> (r: Result<(), ClientError>)
    ensures
        id_checked(first_server_refusal(names@), r),
{
    let mut i: usize = 0;
    while i < names.len()
        invariant
            i <= names.len(),
            first_server_refusal(names@.take(i as int)) is None,
        decreases names.len() - i,
    {
        proof {
            assert(names@.take(i as int + 1).drop_last() =~= names@.take(i as int));
        }
        match check_server_name(names[i].as_str()) {
            Ok(()) => {},
            Err(error) => {
                proof {
                    lemma_first_server_refusal_stays(names@, i as int + 1);
                }
                return Err(error);
            },
        }
        i = i + 1;
    }
    proof {
        assert(names@.take(i as int) =~= names@);
    }
    Ok(())
}

impl PreviewTarget {
    /// Where a room is looked for: by its alias if it has one, and otherwise by its
    /// ID at the given servers.
    pub fn new(room_id: String, canonical_alias: Option<String>, via: Vec<String>) -> (r: Result<
        PreviewTarget,
        ClientError,
    >)
        ensures
            match first_server_refusal(via@) {
                Some(texts) => r matches Err(error) && texts_error(texts, error),
                None => match canonical_alias {
                    Some(alias) => {
                        &&& r matches Ok(target)
                        &&& target.room_or_alias_id == alias
                        &&& target.server_names@.len() == 0
                    },
                    None => r == Ok::<PreviewTarget, ClientError>(
                        PreviewTarget { room_or_alias_id: room_id, server_names: via },
                    ),
                },
            },
    {
        match check_server_names(&via) {
            Ok(()) => {},
            Err(error) => return Err(error),
        }
        match canonical_alias {
            Some(alias) => Ok(
                PreviewTarget { room_or_alias_id: alias, server_names: Vec::new() },
            ),
            None => Ok(PreviewTarget { room_or_alias_id: room_id, server_names: via }),
        }
    }

    /// Adds the server of the user who invited the current user, if there are no
    /// servers to ask yet.
    pub fn with_inviter(self, inviter: Option<String>) -> (r: PreviewTarget)
        ensures
            r.room_or_alias_id == self.room_or_alias_id,
            match inviter {
                Some(user_id) => if self.server_names@.len() == 0 && user_id_refusal(
                    user_id@,
                ) is None {
                    &&& r.server_names@.len() == 1
                    &&& r.server_names@[0]@ == (split_once_spec(user_id@, ":"@)->0).1
                } else {
                    r.server_names@ == self.server_names@
                },
                None => r.server_names@ == self.server_names@,
            },
    {
        let mut server_names: Vec<String> = self.server_names;
        if server_names.len() == 0 {
            if let Some(user_id) = inviter {
                if let Ok(server_name) = parse_user_server_name(user_id.as_str()) {
                    server_names.push(server_name);
                }
            }
        }
        PreviewTarget { room_or_alias_id: self.room_or_alias_id, server_names }
    }
}

/// The texts with which the first text that is not a room alias is refused, if there
/// is one.
pub open spec fn first_alias_refusal(aliases: Seq<String>) -> Option<(Seq<char>, Seq<char>)>
    decreases aliases.len(),
{
    if aliases.len() == 0 {
        None
    } else if first_alias_refusal(aliases.drop_last()) is Some {
        first_alias_refusal(aliases.drop_last())
    } else {
        room_alias_id_refusal(aliases.last()@)
    }
}

/// What the first texts are refused with, all of them are refused with.
proof fn lemma_first_alias_refusal_stays(aliases: Seq<String>, n: int)
    requires
        0 <= n <= aliases.len(),
        first_alias_refusal(aliases.take(n)) is Some,
    ensures
        first_alias_refusal(aliases) == first_alias_refusal(aliases.take(n)),
    decreases aliases.len() - n,
{
    if n < aliases.len() {
        assert(aliases.take(n + 1).drop_last() =~= aliases.take(n));
        lemma_first_alias_refusal_stays(aliases, n + 1);
    } else {
        assert(aliases.take(n) =~= aliases);
    }
}

/// The texts with which an alias is refused, if there is one and it is.
pub open spec fn alias_refusal(alias: Option<String>) -> Option<(Seq<char>, Seq<char>)> {
    match alias {
        Some(alias) => room_alias_id_refusal(alias@),
        None => None,
    }
}

/// Checks the aliases that a room is to have. The canonical one is looked at first,
/// and the first that is not a room alias is the error.
pub fn check_aliases(alias: &Option<String>, alt_aliases: &Vec<String>) -> (r: Result<
    (),
    ClientError,
>)
    ensures
        match alias_refusal(*alias) {
            Some(texts) => r matches Err(error) && texts_error(texts, error),
            None => id_checked(first_alias_refusal(alt_aliases@), r),
        },
{
    if let Some(alias) = alias {
        match check_room_alias_id(alias.as_str()) {
            Ok(()) => {},
            Err(error) => return Err(error),
        }
    }
    let mut i: usize = 0;
    while i < alt_aliases.len()
        invariant
            i <= alt_aliases.len(),
            alias_refusal(*alias) is None,
            first_alias_refusal(alt_aliases@.take(i as int)) is None,
        decreases alt_aliases.len() - i,
    {
        proof {
            assert(alt_aliases@.take(i as int + 1).drop_last() =~= alt_aliases@.take(i as int));
        }
        match check_room_alias_id(alt_aliases[i].as_str()) {
            Ok(()) => {},
            Err(error) => {
                proof {
                    lemma_first_alias_refusal_stays(alt_aliases@, i as int + 1);
                }
                return Err(error);
            },
        }
        i = i + 1;
    }
    proof {
        assert(alt_aliases@.take(i as int) =~= alt_aliases@);
    }
    Ok(())
}

/// Checks the names of users whose verification is withdrawn. The first that is not
/// a user ID is the error.
pub fn check_user_ids(user_ids: &Vec<String>) -> (r: Result<(), ClientError>)
    ensures
        match r {
            Ok(()) => forall|i: int|
                0 <= i < user_ids@.len() ==> user_id_refusal((#[trigger] user_ids@[i])@) is None,
            Err(error) => exists|i: int|
                {
                    &&& 0 <= i < user_ids@.len()
                    &&& user_id_refusal((#[trigger] user_ids@[i])@) matches Some(texts)
                    &&& texts_error(texts, error)
                    &&& forall|j: int|
                        0 <= j < i ==> user_id_refusal((#[trigger] user_ids@[j])@) is None
                },
        },
{
    let mut i: usize = 0;
    while i < user_ids.len()
        invariant
            i <= user_ids.len(),
            forall|j: int| 0 <= j < i ==> user_id_refusal((#[trigger] user_ids@[j])@) is None,
        decreases user_ids.len() - i,
    {
        match check_user_id(user_ids[i].as_str()) {
            Ok(()) => {},
            Err(error) => {
                assert(user_id_refusal(user_ids@[i as int]@) is Some);
                return Err(error);
            },
        }
        i = i + 1;
    }
    Ok(())
}

/// The `matrix.to` link to a room alias.
pub uninterp spec fn room_alias_permalink(alias: Seq<char>) -> Seq<char>;

/// `ruma::RoomAliasId::parse`, then `ruma::RoomAliasId::matrix_to_uri`. Claimed: an
/// alias is refused as `room_alias_id_refusal` says; the link to any other depends on
/// the alias alone.
#[verifier::external_body]
fn link_to_room_alias(alias: &str) -> (r: Result<String, IdParseError>)
    ensures
        match r {
            Ok(link) => room_alias_id_refusal(alias@) is None && link@ == room_alias_permalink(
                alias@,
            ),
            Err(error) => room_alias_id_refusal(alias@) == Some((error.message@, error.debug@)),
        },
{
    match RoomAliasId::parse(alias) {
        Ok(alias) => Ok(alias.matrix_to_uri().to_string()),
        Err(error) => Err(
            IdParseError { message: error.to_string(), debug: format!("{error:?}") },
        ),
    }
}

/// The `matrix.to` link to a room alias.
pub fn matrix_to_room_alias_permalink(room_alias: String) -> (r: Result<String, ClientError>)
    ensures
        match room_alias_id_refusal(room_alias@) {
            None => r matches Ok(link) && link@ == room_alias_permalink(room_alias@),
            Some(texts) => r matches Err(error) && texts_error(texts, error),
        },
{
    match link_to_room_alias(room_alias.as_str()) {
        Ok(link) => Ok(link),
        Err(error) => Err(ClientError::from_id_parse_error(error)),
    }
}

/// The latest event is the one of the timeline if it is local, else the stored one.
pub proof fn local_events_are_latest<E>(
    event: E,
    stored: Option<E>,
    local: Option<E>,
    remote: Option<E>,
    neither: Option<E>,
)
    requires
        call_ensures(latest_event::<E>, (Some((event, true)), stored), local),
        call_ensures(latest_event::<E>, (Some((event, false)), stored), remote),
        call_ensures(latest_event::<E>, (None, stored), neither),
    ensures
        local == Some(event),
        remote == stored && neither == stored,
{
}

/// A timeline shows no event that would not be shown without a filter. One for messages shows
/// the messages of the types that were asked for, and nothing else.
pub proof fn filters_only_hide(
    filter: TimelineFilter,
    event_type: &str,
    msgtype: Option<&str>,
    hidden: bool,
    shown: bool,
)
    requires
        call_ensures(TimelineFilter::shows, (&filter, false, event_type, msgtype), hidden),
        call_ensures(TimelineFilter::shows, (&filter, true, event_type, msgtype), shown),
    ensures
        !hidden,
        filter is All ==> shown,
        filter is OnlyMessage ==> (shown <==> msgtype is Some && filter->types@.contains(
            message_kind(msgtype->0@),
        )),
{
}

/// Power levels are changed only of users who are named by their IDs, to levels that a room can
/// have, and only if all of the changes are such.
pub proof fn power_levels_are_checked(
    updates: Vec<UserPowerLevelUpdate>,
    r: Result<(), ClientError>,
)
    requires
        call_ensures(check_power_level_updates, (&updates,), r),
    ensures
        r is Ok <==> forall|i: int|
            0 <= i < updates@.len() ==> user_id_refusal((#[trigger] updates@[i]).user_id@) is None
                && -9_007_199_254_740_991 <= updates@[i].power_level <= 9_007_199_254_740_991,
{
    if r is Ok {
        assert forall|i: int| 0 <= i < updates@.len() implies user_id_refusal(
            (#[trigger] updates@[i]).user_id@,
        ) is None && -9_007_199_254_740_991 <= updates@[i].power_level <= 9_007_199_254_740_991 by {
            assert(level_update_refusal(updates@[i]) is None);
        }
    } else {
        let i = choose|i: int|
            0 <= i < updates@.len() && level_update_refusal(#[trigger] updates@[i]) is Some;
        assert(level_update_refusal(updates@[i]) is Some);
    }
}

/// A thread is subscribed to or not as was asked for, if it is named by the ID of an event.
pub proof fn threads_are_subscribed_as_asked_for(
    root: &str,
    on: Result<ThreadSubscriptionChange, ClientError>,
    off: Result<ThreadSubscriptionChange, ClientError>,
)
    requires
        call_ensures(set_thread_subscription, (root, true), on),
        call_ensures(set_thread_subscription, (root, false), off),
    ensures
        on is Ok <==> event_id_refusal(root@) is None,
        off is Ok <==> on is Ok,
        on is Ok ==> on->Ok_0 is Subscribe && off->Ok_0 is Unsubscribe,
{
}

/// Threads are listed as was asked for; a limit that cannot be sent is left out.
pub proof fn threads_are_listed_as_asked_for(options: ListThreadsOptions, r: ListThreadsOptions)
    requires
        call_ensures(ListThreadsOptions::for_request, (options,), r),
    ensures
        r.include_threads == options.include_threads && r.from == options.from,
        r.limit is Some ==> r.limit == options.limit,
        options.limit matches Some(limit) ==> (limit <= 9_007_199_254_740_991 <==> r.limit is Some),
{
}

/// A preview of a room is asked for by its alias where it has one, and of the servers that were
/// named otherwise; where none is known, the inviter's is asked.
pub proof fn previews_are_asked_for(
    room_id: String,
    alias: Option<String>,
    via: Vec<String>,
    r: Result<PreviewTarget, ClientError>,
    inviter: Option<String>,
    target: PreviewTarget,
    asked: PreviewTarget,
)
    requires
        call_ensures(PreviewTarget::new, (room_id, alias, via), r),
        call_ensures(PreviewTarget::with_inviter, (target, inviter), asked),
    ensures
        r is Ok <==> first_server_refusal(via@) is None,
        r is Ok && alias is Some ==> r->Ok_0.room_or_alias_id == alias->0
            && r->Ok_0.server_names@.len() == 0,
        r is Ok && alias is None ==> r->Ok_0.room_or_alias_id == room_id && r->Ok_0.server_names
            == via,
        asked.room_or_alias_id == target.room_or_alias_id,
        inviter is None || target.server_names@.len() > 0 ==> asked.server_names@
            == target.server_names@,
        inviter is Some && target.server_names@.len() == 0 && user_id_refusal(
            inviter->0@,
        ) is None ==> asked.server_names@.len() == 1,
{
}

/// Contents are sent as the JSON that they are, and what is not JSON is refused. A timeline that
/// reports what cannot be decrypted needs somebody to report to.
pub proof fn contents_are_json(
    content: &str,
    r: Result<String, ClientError>,
    report: bool,
    has_hook: bool,
    hook: Result<(), ClientError>,
)
    requires
        call_ensures(raw_content, (content,), r),
        call_ensures(check_utd_hook, (report, has_hook), hook),
    ensures
        r is Ok <==> json_reading(content@) is Ok,
        r is Ok ==> r->Ok_0@ == json_reading(content@)->Ok_0,
        hook is Err <==> report && !has_hook,
{
}

/// Who invited the user is told of an invite, and of nothing else.
pub proof fn inviters_are_told_of_invites<M>(membership: Membership, by: Option<M>, r: Option<M>)
    requires
        call_ensures(inviter::<M>, (membership, by), r),
    ensures
        membership is Invited ==> r == by,
        !(membership is Invited) ==> r is None,
{
}

/// A member who was found is the answer, and nobody is an error; users are invited by their IDs.
pub proof fn members_are_found<M>(
    member: M,
    found: Result<M, ClientError>,
    missing: Result<M, ClientError>,
    user_id: &str,
    invited: Result<(), ClientError>,
)
    requires
        call_ensures(found_member::<M>, (Some(member),), found),
        call_ensures(found_member::<M>, (None,), missing),
        call_ensures(check_invited_user, (user_id,), invited),
    ensures
        found == Ok::<M, ClientError>(member) && missing is Err,
        invited is Ok <==> user_id_refusal(user_id@) is None,
{
}

/// Threads are listed in their order, without those that could not be read, and with the token to go
/// on from.
pub proof fn threads_that_can_be_read_are_listed(
    events: Vec<Option<TimelineEvent>>,
    token: Option<String>,
    r: ThreadRoots,
)
    requires
        call_ensures(ThreadRoots::new, (events, token), r),
    ensures
        r.prev_batch_token == token,
        r.chunk@.len() <= events@.len(),
        forall|i: int|
            0 <= i < r.chunk@.len() ==> events@.contains(Some(#[trigger] r.chunk@[i])),
        forall|i: int|
            0 <= i < events@.len() && (#[trigger] events@[i]) is Some ==> r.chunk@.contains(
                events@[i]->0,
            ),
{
    let keep = |event: Option<TimelineEvent>| is_read(event);
    let kept = events@.filter(keep);
    events@.lemma_filter_len(keep);
    assert forall|i: int| 0 <= i < r.chunk@.len() implies events@.contains(
        Some(#[trigger] r.chunk@[i]),
    ) by {
        events@.lemma_filter_pred(keep, i);
        events@.lemma_filter_contains_rev(keep, kept[i]);
        assert(Some(r.chunk@[i]) == kept[i]);
    }
    assert forall|i: int| 0 <= i < events@.len() && (#[trigger] events@[i]) is Some implies r.chunk@.contains(
        events@[i]->0,
    ) by {
        events@.lemma_filter_contains(keep, i);
        let k = choose|k: int| 0 <= k < kept.len() && kept[k] == events@[i];
        assert(r.chunk@[k] == events@[i]->0);
    }
}

/// Names are accepted if and only if all of them are what they are said to be.
pub proof fn all_names_are_checked(
    servers: Vec<String>,
    checked: Result<(), ClientError>,
    users: Vec<String>,
    known: Result<(), ClientError>,
    i: int,
)
    requires
        call_ensures(check_server_names, (&servers,), checked),
        call_ensures(check_user_ids, (&users,), known),
    ensures
        checked is Ok && 0 <= i < servers@.len() ==> server_name_refusal(servers@[i]@) is None,
        servers@.len() == 0 ==> checked is Ok,
        known is Ok && 0 <= i < users@.len() ==> user_id_refusal(users@[i]@) is None,
        users@.len() == 0 ==> known is Ok,
{
    lemma_no_server_is_refused(servers@);
}

/// Where nothing is refused, every text is a server name.
proof fn lemma_no_server_is_refused(names: Seq<String>)
    ensures
        first_server_refusal(names) is None ==> forall|i: int|
            0 <= i < names.len() ==> server_name_refusal((#[trigger] names[i])@) is None,
    decreases names.len(),
{
    if names.len() > 0 && first_server_refusal(names) is None {
        let front = names.drop_last();
        lemma_no_server_is_refused(front);
        assert forall|i: int| 0 <= i < names.len() implies server_name_refusal(
            (#[trigger] names[i])@,
        ) is None by {
            if i < front.len() {
                assert(front[i] == names[i]);
            }
        }
    }
}

/// Only messages of the types that were asked for are wanted, and only if they would be shown.
pub proof fn wanted_messages_are_of_their_types(
    is_shown: bool,
    types: Vec<RoomMessageEventMessageType>,
    msgtype: &str,
    r: bool,
    other: bool,
)
    requires
        call_ensures(is_wanted_message, (is_shown, &types, Some(msgtype)), r),
        call_ensures(is_wanted_message, (is_shown, &types, None), other),
    ensures
        r <==> is_shown && types@.contains(message_kind(msgtype@)),
        !other,
{
}

/// A room is linked to by its alias, if it is one.
pub proof fn aliases_are_linked_to(alias: String, r: Result<String, ClientError>)
    requires
        call_ensures(matrix_to_room_alias_permalink, (alias,), r),
    ensures
        r is Ok <==> room_alias_id_refusal(alias@) is None,
        r is Ok ==> r->Ok_0@ == room_alias_permalink(alias@),
{
}

/// The server of the inviter is what stands behind the first colon of their ID.
pub proof fn the_inviters_server_is_asked(
    target: PreviewTarget,
    inviter: String,
    asked: PreviewTarget,
)
    requires
        target.server_names@.len() == 0,
        user_id_refusal(inviter@) is None,
        inviter@.contains(':'),
        call_ensures(PreviewTarget::with_inviter, (target, Some(inviter)), asked),
    ensures
        asked.server_names@.len() == 1,
        exists|local: Seq<char>| #[trigger]
            (local + seq![':'] + asked.server_names@[0]@) == inviter@ && !local.contains(':'),
{
    reveal_strlit(":");
    assert(":"@ =~= seq![':']);
    crate::text::cut_texts_can_be_joined(inviter@, ':');
    let parts = split_once_spec(inviter@, seq![':'])->0;
    assert(parts.0 + seq![':'] + asked.server_names@[0]@ == inviter@);
}

/// Aliases of a room are accepted if all of them are aliases.
pub proof fn aliases_are_checked(
    alias: Option<String>,
    others: Vec<String>,
    r: Result<(), ClientError>,
    i: int,
)
    requires
        call_ensures(check_aliases, (&alias, &others), r),
    ensures
        r is Ok ==> (alias is Some ==> room_alias_id_refusal(alias->0@) is None),
        r is Ok && 0 <= i < others@.len() ==> room_alias_id_refusal(others@[i]@) is None,
        others@.len() == 0 && (alias is None || room_alias_id_refusal(alias->0@) is None) ==> r is Ok,
{
    lemma_no_alias_is_refused(others@);
}

/// Where nothing is refused, every text is an alias.
proof fn lemma_no_alias_is_refused(aliases: Seq<String>)
    ensures
        first_alias_refusal(aliases) is None ==> forall|i: int|
            0 <= i < aliases.len() ==> room_alias_id_refusal((#[trigger] aliases[i])@) is None,
    decreases aliases.len(),
{
    if aliases.len() > 0 && first_alias_refusal(aliases) is None {
        let front = aliases.drop_last();
        lemma_no_alias_is_refused(front);
        assert forall|i: int| 0 <= i < aliases.len() implies room_alias_id_refusal(
            (#[trigger] aliases[i])@,
        ) is None by {
            if i < front.len() {
                assert(front[i] == aliases[i]);
            }
        }
    }
}

} // verus!
