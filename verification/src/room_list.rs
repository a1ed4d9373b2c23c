//! The list of rooms.

use vstd::prelude::*;

use crate::ids::{parse_room_id, room_id_refusal, IdParseError};
use crate::list_update::{fits, is_update, ListDiff, ListItem, ListUpdate};
use crate::room::Membership;
use crate::text::{concat2, concat3, join, joined, views};

verus! {

/// An error of the list of rooms.
pub enum RoomListError {
    SlidingSync { error: String },
    UnknownList { list_name: String },
    InputCannotBeApplied,
    RoomNotFound { room_name: String },
    InvalidRoomId { error: String },
    EventCache { error: String },
    IncorrectRoomMembership { expected: Vec<Membership>, actual: Membership },
}

/// An error of the list of rooms, as the SDK has it.
pub enum SdkRoomListError {
    /// With the text of the error.
    SlidingSync { message: String },
    UnknownList { list_name: String },
    RoomNotFound { room_id: String },
    /// With the text of the error.
    EventCache { message: String },
}

/// The names of memberships.
pub open spec fn membership_names(list: Seq<Membership>) -> Seq<Seq<char>> {
    list.map_values(|m: Membership| m.name())
}

/// The text of an error.
pub open spec fn room_list_error_text(error: RoomListError) -> Seq<char> {
    match error {
        RoomListError::SlidingSync { error } => "sliding sync error: "@ + error@,
        RoomListError::UnknownList { list_name } => "unknown list `"@ + list_name@ + "`"@,
        RoomListError::InputCannotBeApplied => "input cannot be applied"@,
        RoomListError::RoomNotFound { room_name } => "room `"@ + room_name@ + "` not found"@,
        RoomListError::InvalidRoomId { error } => "invalid room ID: "@ + error@,
        RoomListError::EventCache { error } => "Event cache ran into an error: "@ + error@,
        RoomListError::IncorrectRoomMembership { expected, actual } => (
        "The requested room doesn't match the membership requirements ["@ + joined(
            membership_names(expected@),
            ", "@,
        ) + "], observed "@) + actual.name(),
    }
}

/// The names of memberships, one after the other.
fn membership_list(list: &Vec<Membership>) -> (r: String)
    ensures
        r@ == joined(membership_names(list@), ", "@),
{
    let mut names: Vec<String> = Vec::new();
    let mut i: usize = 0;
    while i < list.len()
        invariant
            i <= list.len(),
            views(names@) == membership_names(list@.take(i as int)),
        decreases list.len() - i,
    {
        let ghost before = names@;
        names.push(list[i].as_str().to_owned());
        proof {
            assert(views(names@) =~= views(before).push(list@[i as int].name()));
            assert(membership_names(list@.take(i as int + 1)) =~= membership_names(
                list@.take(i as int),
            ).push(list@[i as int].name()));
        }
        i = i + 1;
    }
    proof {
        assert(list@.take(i as int) =~= list@);
    }
    join(&names, ", ")
}

impl RoomListError {
    /// What an error of the SDK becomes.
    pub fn from(value: SdkRoomListError) -> (r: RoomListError)
        ensures
            r == match value {
                SdkRoomListError::SlidingSync { message } => RoomListError::SlidingSync {
                    error: message,
                },
                SdkRoomListError::UnknownList { list_name } => RoomListError::UnknownList {
                    list_name,
                },
                SdkRoomListError::RoomNotFound { room_id } => RoomListError::RoomNotFound {
                    room_name: room_id,
                },
                SdkRoomListError::EventCache { message } => RoomListError::EventCache {
                    error: message,
                },
            },
    {
        match value {
            SdkRoomListError::SlidingSync { message } => RoomListError::SlidingSync {
                error: message,
            },
            SdkRoomListError::UnknownList { list_name } => RoomListError::UnknownList { list_name },
            SdkRoomListError::RoomNotFound { room_id } => RoomListError::RoomNotFound {
                room_name: room_id,
            },
            SdkRoomListError::EventCache { message } => RoomListError::EventCache {
                error: message,
            },
        }
    }

    /// What a text that is not a room ID becomes.
    pub fn from_id_parse_error(error: IdParseError) -> (r: RoomListError)
        ensures
            r == (RoomListError::InvalidRoomId { error: error.message }),
    {
        RoomListError::InvalidRoomId { error: error.message }
    }

    /// The text of the error.
    pub fn to_string(&self) -> (r: String)
        ensures
            r@ == room_list_error_text(*self),
    {
        match self {
            RoomListError::SlidingSync { error } => concat2("sliding sync error: ", error.as_str()),
            RoomListError::UnknownList { list_name } => {
                concat3("unknown list `", list_name.as_str(), "`")
            },
            RoomListError::InputCannotBeApplied => "input cannot be applied".to_owned(),
            RoomListError::RoomNotFound { room_name } => {
                concat3("room `", room_name.as_str(), "` not found")
            },
            RoomListError::InvalidRoomId { error } => concat2("invalid room ID: ", error.as_str()),
            RoomListError::EventCache { error } => {
                concat2("Event cache ran into an error: ", error.as_str())
            },
            RoomListError::IncorrectRoomMembership { expected, actual } => {
                let list: String = membership_list(expected);
                let start: String = concat3(
                    "The requested room doesn't match the membership requirements [",
                    list.as_str(),
                    "], observed ",
                );
                concat2(start.as_str(), actual.as_str())
            },
        }
    }
}

/// Checks the name of a room that is looked up.
pub fn check_listed_room(room_id: &str) -> (r: Result<(), RoomListError>)
    ensures
        match room_id_refusal(room_id@) {
            None => r is Ok,
            Some(texts) => {
                &&& r matches Err(RoomListError::InvalidRoomId { error })
                &&& error@ == texts.0
            },
        },
{
    match parse_room_id(room_id) {
        Ok(()) => Ok(()),
        Err(error) => Err(RoomListError::from_id_parse_error(error)),
    }
}

/// Checks the names of rooms that are subscribed to; the first that is not a room ID
/// is handed back with the error.
pub fn check_subscribed_rooms(room_ids: &Vec<String>) -> (r: Result<(), RoomListError>)
    ensures
        match r {
            Ok(()) => forall|i: int|
                0 <= i < room_ids@.len() ==> room_id_refusal((#[trigger] room_ids@[i])@) is None,
            Err(error) => exists|i: int|
                {
                    &&& 0 <= i < room_ids@.len()
                    &&& error == (RoomListError::InvalidRoomId { error: #[trigger] room_ids@[i] })
                    &&& room_id_refusal(room_ids@[i]@) is Some
                    &&& forall|j: int|
                        0 <= j < i ==> room_id_refusal((#[trigger] room_ids@[j])@) is None
                },
        },
{
    let mut i: usize = 0;
    while i < room_ids.len()
        invariant
            i <= room_ids.len(),
            forall|j: int| 0 <= j < i ==> room_id_refusal((#[trigger] room_ids@[j])@) is None,
        decreases room_ids.len() - i,
    {
        match parse_room_id(room_ids[i].as_str()) {
            Ok(()) => {},
            Err(_) => {
                let error: String = room_ids[i].clone();
                assert(error == room_ids@[i as int]);
                return Err(RoomListError::InvalidRoomId { error });
            },
        }
        i = i + 1;
    }
    Ok(())
}

/// The state of the service that keeps the list.
#[derive(Clone, Copy, Debug, PartialEq, Eq, Structural)]
pub enum RoomListServiceState {
    Initial,
    SettingUp,
    Recovering,
    Running,
    Error,
    Terminated,
}

/// Whether the user is shown that the list is being synced.
#[derive(Clone, Copy, Debug, PartialEq, Eq, Structural)]
pub enum RoomListServiceSyncIndicator {
    Show,
    Hide,
}

/// Whether the list was loaded.
#[derive(Clone, Copy, Debug, PartialEq, Eq, Structural)]
pub enum RoomListLoadingState {
    NotLoaded,
    Loaded { maximum_number_of_rooms: Option<u32> },
}

/// Whether the list was loaded, and what tells of changes of that.
pub struct RoomListLoadingStateResult<H> {
    pub state: RoomListLoadingState,
    pub state_stream: H,
}

/// Told of the state of the service.
pub trait RoomListServiceStateListener {
    fn on_update(&self, state: RoomListServiceState);
}

/// Told whether the list was loaded.
pub trait RoomListLoadingStateListener {
    fn on_update(&self, state: RoomListLoadingState);
}

/// Told whether the user is shown that the list is being synced.
pub trait RoomListServiceSyncIndicatorListener {
    fn on_update(&self, sync_indicator: RoomListServiceSyncIndicator);
}

/// A room of the list.
pub struct RoomListEntry<R> {
    pub room: R,
}

impl<R> ListItem<R> for RoomListEntry<R> {
    open spec fn is_item(value: R, item: RoomListEntry<R>) -> bool {
        item.room == value
    }

    fn from_element(value: R) -> (item: RoomListEntry<R>) {
        RoomListEntry { room: value }
    }
}

/// A change of the list.
pub type RoomListEntriesUpdate<R> = ListUpdate<RoomListEntry<R>>;

/// Told of changes of the list.
pub trait RoomListEntriesListener<R> {
    fn on_update(&self, room_entries_update: Vec<RoomListEntriesUpdate<R>>);
}

/// What a change of the list is told as. A place that does not fit in 32 bits cannot
/// be told.
pub fn room_list_update<R>(diff: ListDiff<R>) -> (r: RoomListEntriesUpdate<R>)
    requires
        fits(diff),
    ensures
        is_update::<R, RoomListEntry<R>>(diff, r),
{
    ListUpdate::from(diff)
}

/// What a room is for.
#[derive(Clone, Copy, Debug, PartialEq, Eq, Structural)]
pub enum RoomListFilterCategory {
    Group,
    People,
}

/// Which rooms are in the list.
pub enum RoomListEntriesDynamicFilterKind {
    /// Those that meet all of these.
    All { filters: Vec<RoomListEntriesDynamicFilterKind> },
    /// Those that meet one of these.
    Any { filters: Vec<RoomListEntriesDynamicFilterKind> },
    /// Those with one of these IDs.
    Identifiers { identifiers: Vec<String> },
    NonSpace,
    Space,
    NonLeft,
    Joined,
    Unread,
    Favourite,
    LowPriority,
    NonLowPriority,
    NonFavorite,
    Invite,
    Category { expect: RoomListFilterCategory },
    /// None at all.
    NoRoom,
    NormalizedMatchRoomName { pattern: String },
    FuzzyMatchRoomName { pattern: String },
    DeduplicateVersions,
}

/// A filter of rooms, made up of those that there are.
pub enum RoomFilter {
    All { filters: Vec<RoomFilter> },
    Any { filters: Vec<RoomFilter> },
    Not { filter: Box<RoomFilter> },
    Identifiers { identifiers: Vec<String> },
    Space,
    NonLeft,
    Joined,
    Unread,
    Favourite,
    LowPriority,
    Invite,
    Category { expect: RoomListFilterCategory },
    NoRoom,
    NormalizedMatchRoomName { pattern: String },
    FuzzyMatchRoomName { pattern: String },
    DeduplicateVersions,
}

/// Whether rooms are named by their IDs wherever a filter names them.
pub open spec fn names_rooms_by_id(kind: RoomListEntriesDynamicFilterKind) -> bool
    decreases kind,
{
    match kind {
        RoomListEntriesDynamicFilterKind::All { filters } => forall|i: int|
            0 <= i < filters@.len() ==> names_rooms_by_id(#[trigger] filters@[i]),
        RoomListEntriesDynamicFilterKind::Any { filters } => forall|i: int|
            0 <= i < filters@.len() ==> names_rooms_by_id(#[trigger] filters@[i]),
        RoomListEntriesDynamicFilterKind::Identifiers { identifiers } => forall|i: int|
            0 <= i < identifiers@.len() ==> room_id_refusal((#[trigger] identifiers@[i])@) is None,
        _ => true,
    }
}

/// The filter for a kind: the negations are made up of `Not`.
pub open spec fn is_filter(kind: RoomListEntriesDynamicFilterKind, filter: RoomFilter) -> bool
    decreases kind,
{
    match kind {
        RoomListEntriesDynamicFilterKind::All { filters } => {
            &&& filter matches RoomFilter::All { filters: made }
            &&& made@.len() == filters@.len()
            &&& forall|i: int| 0 <= i < filters@.len() ==> is_filter(#[trigger] filters@[i], made@[i])
        },
        RoomListEntriesDynamicFilterKind::Any { filters } => {
            &&& filter matches RoomFilter::Any { filters: made }
            &&& made@.len() == filters@.len()
            &&& forall|i: int| 0 <= i < filters@.len() ==> is_filter(#[trigger] filters@[i], made@[i])
        },
        RoomListEntriesDynamicFilterKind::Identifiers { identifiers } => {
            &&& filter matches RoomFilter::Identifiers { identifiers: made }
            &&& made@ == identifiers@
        },
        RoomListEntriesDynamicFilterKind::NonSpace => filter == RoomFilter::Not {
            filter: Box::new(RoomFilter::Space),
        },
        RoomListEntriesDynamicFilterKind::Space => filter == RoomFilter::Space,
        RoomListEntriesDynamicFilterKind::NonLeft => filter == RoomFilter::NonLeft,
        RoomListEntriesDynamicFilterKind::Joined => filter == RoomFilter::Joined,
        RoomListEntriesDynamicFilterKind::Unread => filter == RoomFilter::Unread,
        RoomListEntriesDynamicFilterKind::Favourite => filter == RoomFilter::Favourite,
        RoomListEntriesDynamicFilterKind::LowPriority => filter == RoomFilter::LowPriority,
        RoomListEntriesDynamicFilterKind::NonLowPriority => filter == RoomFilter::Not {
            filter: Box::new(RoomFilter::LowPriority),
        },
        RoomListEntriesDynamicFilterKind::NonFavorite => filter == RoomFilter::Not {
            filter: Box::new(RoomFilter::Favourite),
        },
        RoomListEntriesDynamicFilterKind::Invite => filter == RoomFilter::Invite,
        RoomListEntriesDynamicFilterKind::Category { expect } => filter == RoomFilter::Category {
            expect,
        },
        RoomListEntriesDynamicFilterKind::NoRoom => filter == RoomFilter::NoRoom,
        RoomListEntriesDynamicFilterKind::NormalizedMatchRoomName { pattern } => filter
            == RoomFilter::NormalizedMatchRoomName { pattern },
        RoomListEntriesDynamicFilterKind::FuzzyMatchRoomName { pattern } => filter
            == RoomFilter::FuzzyMatchRoomName { pattern },
        RoomListEntriesDynamicFilterKind::DeduplicateVersions => filter
            == RoomFilter::DeduplicateVersions,
    }
}

/// Whether all of the texts are room IDs.
fn are_room_ids(ids: &Vec<String>) -> (r: bool)
    ensures
        r == forall|i: int|
            0 <= i < ids@.len() ==> room_id_refusal((#[trigger] ids@[i])@) is None,
{
    let mut i: usize = 0;
    while i < ids.len()
        invariant
            i <= ids.len(),
            forall|j: int| 0 <= j < i ==> room_id_refusal((#[trigger] ids@[j])@) is None,
        decreases ids.len() - i,
    {
        match parse_room_id(ids[i].as_str()) {
            Ok(()) => {},
            Err(_) => {
                assert(room_id_refusal(ids@[i as int]@) is Some);
                return false;
            },
        }
        i = i + 1;
    }
    true
}

/// A copy of the texts.
fn copy_texts(texts: &Vec<String>) -> (r: Vec<String>)
    ensures
        r@ == texts@,
{
    let mut out: Vec<String> = Vec::new();
    let mut i: usize = 0;
    while i < texts.len()
        invariant
            i <= texts.len(),
            out@ == texts@.take(i as int),
        decreases texts.len() - i,
    {
        out.push(texts[i].clone());
        i = i + 1;
    }
    proof {
        assert(texts@.take(i as int) =~= texts@);
    }
    out
}

/// The filters for several kinds, if all rooms are named by their IDs.
fn filters_of(kinds: &Vec<RoomListEntriesDynamicFilterKind>) -> (r: Option<Vec<RoomFilter>>)
    ensures
        r is Some <==> forall|i: int|
            0 <= i < kinds@.len() ==> names_rooms_by_id(#[trigger] kinds@[i]),
        r matches Some(made) ==> made@.len() == kinds@.len() && forall|i: int|
            0 <= i < kinds@.len() ==> is_filter(#[trigger] kinds@[i], made@[i]),
    decreases kinds,
{
    let mut made: Vec<RoomFilter> = Vec::new();
    let mut i: usize = 0;
    while i < kinds.len()
        invariant
            i <= kinds.len(),
            made@.len() == i,
            forall|j: int| 0 <= j < i ==> names_rooms_by_id(#[trigger] kinds@[j]),
            forall|j: int| 0 <= j < i ==> is_filter(#[trigger] kinds@[j], made@[j]),
        decreases kinds.len() - i,
    {
        proof {
            assert(decreases_to!(kinds => kinds@[i as int]));
        }
        match RoomFilter::try_from(&kinds[i]) {
            Some(filter) => made.push(filter),
            None => {
                assert(!names_rooms_by_id(kinds@[i as int]));
                return None;
            },
        }
        i = i + 1;
    }
    Some(made)
}

impl RoomFilter {
    /// The filter for a kind. There is none if a room is not named by its ID.
    pub fn try_from(kind: &RoomListEntriesDynamicFilterKind) -> (r: Option<RoomFilter>)
        ensures
            r is Some <==> names_rooms_by_id(*kind),
            r matches Some(filter) ==> is_filter(*kind, filter),
        decreases kind,
    {
        match kind {
            RoomListEntriesDynamicFilterKind::All { filters } => match filters_of(filters) {
                Some(filters) => Some(RoomFilter::All { filters }),
                None => None,
            },
            RoomListEntriesDynamicFilterKind::Any { filters } => match filters_of(filters) {
                Some(filters) => Some(RoomFilter::Any { filters }),
                None => None,
            },
            RoomListEntriesDynamicFilterKind::Identifiers { identifiers } => {
                if are_room_ids(identifiers) {
                    Some(RoomFilter::Identifiers { identifiers: copy_texts(identifiers) })
                } else {
                    None
                }
            },
            RoomListEntriesDynamicFilterKind::NonSpace => Some(
                RoomFilter::Not { filter: Box::new(RoomFilter::Space) },
            ),
            RoomListEntriesDynamicFilterKind::Space => Some(RoomFilter::Space),
            RoomListEntriesDynamicFilterKind::NonLeft => Some(RoomFilter::NonLeft),
            RoomListEntriesDynamicFilterKind::Joined => Some(RoomFilter::Joined),
            RoomListEntriesDynamicFilterKind::Unread => Some(RoomFilter::Unread),
            RoomListEntriesDynamicFilterKind::Favourite => Some(RoomFilter::Favourite),
            RoomListEntriesDynamicFilterKind::LowPriority => Some(RoomFilter::LowPriority),
            RoomListEntriesDynamicFilterKind::NonLowPriority => Some(
                RoomFilter::Not { filter: Box::new(RoomFilter::LowPriority) },
            ),
            RoomListEntriesDynamicFilterKind::NonFavorite => Some(
                RoomFilter::Not { filter: Box::new(RoomFilter::Favourite) },
            ),
            RoomListEntriesDynamicFilterKind::Invite => Some(RoomFilter::Invite),
            RoomListEntriesDynamicFilterKind::Category { expect } => Some(
                RoomFilter::Category { expect: *expect },
            ),
            RoomListEntriesDynamicFilterKind::NoRoom => Some(RoomFilter::NoRoom),
            RoomListEntriesDynamicFilterKind::NormalizedMatchRoomName { pattern } => Some(
                RoomFilter::NormalizedMatchRoomName { pattern: pattern.clone() },
            ),
            RoomListEntriesDynamicFilterKind::FuzzyMatchRoomName { pattern } => Some(
                RoomFilter::FuzzyMatchRoomName { pattern: pattern.clone() },
            ),
            RoomListEntriesDynamicFilterKind::DeduplicateVersions => Some(
                RoomFilter::DeduplicateVersions,
            ),
        }
    }
}

/// How many notifications of a room were not read.
#[derive(Clone, Copy, Debug, PartialEq, Eq, Structural)]
pub struct UnreadNotificationsCount {
    pub highlight_count: u32,
    pub notification_count: u32,
}

/// A count that is not given, or does not fit in 32 bits, is zero.
pub open spec fn count_or_zero(count: Option<u64>) -> u32 {
    match count {
        Some(count) => if count <= u32::MAX {
            count as u32
        } else {
            0
        },
        None => 0,
    }
}

/// A count that is not given, or does not fit in 32 bits, is zero.
fn small_count(count: Option<u64>) -> (r: u32)
    ensures
        r == count_or_zero(count),
{
    match count {
        Some(count) => if count <= u32::MAX as u64 {
            count as u32
        } else {
            0
        },
        None => 0,
    }
}

impl UnreadNotificationsCount {
    /// The counts that a homeserver gave.
    pub fn from(highlight_count: Option<u64>, notification_count: Option<u64>) -> (r:
        UnreadNotificationsCount)
        ensures
            r == (UnreadNotificationsCount {
                highlight_count: count_or_zero(highlight_count),
                notification_count: count_or_zero(notification_count),
            }),
    {
        UnreadNotificationsCount {
            highlight_count: small_count(highlight_count),
            notification_count: small_count(notification_count),
        }
    }

    /// How many of them are highlighted.
    pub fn highlight_count(&self) -> (r: u32)
        ensures
            r == self.highlight_count,
    {
        self.highlight_count
    }

    /// How many there are.
    pub fn notification_count(&self) -> (r: u32)
        ensures
            r == self.notification_count,
    {
        self.notification_count
    }

    /// Whether there are any.
    pub fn has_notifications(&self) -> (r: bool)
        ensures
            r <==> self.notification_count != 0 || self.highlight_count != 0,
    {
        self.notification_count != 0 || self.highlight_count != 0
    }
}

/// Whether a room passes a filter, given the simple filters that it meets.
pub open spec fn passes(filter: RoomFilter, met: Set<RoomFilter>) -> bool
    decreases filter,
{
    match filter {
        RoomFilter::All { filters } => forall|i: int|
            0 <= i < filters@.len() ==> passes(#[trigger] filters@[i], met),
        RoomFilter::Any { filters } => exists|i: int|
            0 <= i < filters@.len() && passes(#[trigger] filters@[i], met),
        RoomFilter::Not { filter } => !passes(*filter, met),
        _ => met.contains(filter),
    }
}

/// Whether a kind of filter is the negation of another one.
pub open spec fn is_negation(
    kind: RoomListEntriesDynamicFilterKind,
    positive: RoomListEntriesDynamicFilterKind,
) -> bool {
    ||| kind is NonSpace && positive is Space
    ||| kind is NonLowPriority && positive is LowPriority
    ||| kind is NonFavorite && positive is Favourite
}

/// A room is in the list without spaces, without low priority or without favourites
/// if and only if it is not in the list of spaces, of low priority or of favourites.
pub proof fn negative_filters_are_complements(
    kind: RoomListEntriesDynamicFilterKind,
    positive: RoomListEntriesDynamicFilterKind,
    filter: RoomFilter,
    positive_filter: RoomFilter,
    met: Set<RoomFilter>,
)
    requires
        is_filter(kind, filter),
        is_filter(positive, positive_filter),
        is_negation(kind, positive),
    ensures
        passes(filter, met) <==> !passes(positive_filter, met),
{
    reveal_with_fuel(passes, 2);
}

/// What a filter of rooms can tell of a room.
pub struct ListedRoom {
    pub room_id: String,
    pub is_space: bool,
    pub is_left: bool,
    pub is_joined: bool,
    pub is_invited: bool,
    pub is_unread: bool,
    pub is_favourite: bool,
    pub is_low_priority: bool,
    pub category: RoomListFilterCategory,
    /// Whether no later version of the room is known.
    pub is_latest_version: bool,
}

/// Whether a filter lets a room through, given which patterns its name matches.
pub open spec fn lets_through(
    filter: RoomFilter,
    room: ListedRoom,
    normalized: spec_fn(Seq<char>) -> bool,
    fuzzy: spec_fn(Seq<char>) -> bool,
) -> bool
    decreases filter,
{
    match filter {
        RoomFilter::All { filters } => forall|i: int|
            0 <= i < filters@.len() ==> lets_through(#[trigger] filters@[i], room, normalized, fuzzy),
        RoomFilter::Any { filters } => exists|i: int|
            0 <= i < filters@.len() && lets_through(#[trigger] filters@[i], room, normalized, fuzzy),
        RoomFilter::Not { filter } => !lets_through(*filter, room, normalized, fuzzy),
        RoomFilter::Identifiers { identifiers } => views(identifiers@).contains(room.room_id@),
        RoomFilter::Space => room.is_space,
        RoomFilter::NonLeft => !room.is_left,
        RoomFilter::Joined => room.is_joined,
        RoomFilter::Unread => room.is_unread,
        RoomFilter::Favourite => room.is_favourite,
        RoomFilter::LowPriority => room.is_low_priority,
        RoomFilter::Invite => room.is_invited,
        RoomFilter::Category { expect } => room.category == expect,
        RoomFilter::NoRoom => false,
        RoomFilter::NormalizedMatchRoomName { pattern } => normalized(pattern@),
        RoomFilter::FuzzyMatchRoomName { pattern } => fuzzy(pattern@),
        RoomFilter::DeduplicateVersions => room.is_latest_version,
    }
}

/// Whether a room is one of those that a kind of filter asks for.
pub open spec fn is_asked_for(
    kind: RoomListEntriesDynamicFilterKind,
    room: ListedRoom,
    normalized: spec_fn(Seq<char>) -> bool,
    fuzzy: spec_fn(Seq<char>) -> bool,
) -> bool
    decreases kind,
{
    match kind {
        RoomListEntriesDynamicFilterKind::All { filters } => forall|i: int|
            0 <= i < filters@.len() ==> is_asked_for(#[trigger] filters@[i], room, normalized, fuzzy),
        RoomListEntriesDynamicFilterKind::Any { filters } => exists|i: int|
            0 <= i < filters@.len() && is_asked_for(#[trigger] filters@[i], room, normalized, fuzzy),
        RoomListEntriesDynamicFilterKind::Identifiers { identifiers } => views(
            identifiers@,
        ).contains(room.room_id@),
        RoomListEntriesDynamicFilterKind::NonSpace => !room.is_space,
        RoomListEntriesDynamicFilterKind::Space => room.is_space,
        RoomListEntriesDynamicFilterKind::NonLeft => !room.is_left,
        RoomListEntriesDynamicFilterKind::Joined => room.is_joined,
        RoomListEntriesDynamicFilterKind::Unread => room.is_unread,
        RoomListEntriesDynamicFilterKind::Favourite => room.is_favourite,
        RoomListEntriesDynamicFilterKind::LowPriority => room.is_low_priority,
        RoomListEntriesDynamicFilterKind::NonLowPriority => !room.is_low_priority,
        RoomListEntriesDynamicFilterKind::NonFavorite => !room.is_favourite,
        RoomListEntriesDynamicFilterKind::Invite => room.is_invited,
        RoomListEntriesDynamicFilterKind::Category { expect } => room.category == expect,
        RoomListEntriesDynamicFilterKind::NoRoom => false,
        RoomListEntriesDynamicFilterKind::NormalizedMatchRoomName { pattern } => normalized(
            pattern@,
        ),
        RoomListEntriesDynamicFilterKind::FuzzyMatchRoomName { pattern } => fuzzy(pattern@),
        RoomListEntriesDynamicFilterKind::DeduplicateVersions => room.is_latest_version,
    }
}

/// The filter for a kind lets a room through if and only if the kind asks for it.
proof fn lemma_filter_lets_through(
    kind: RoomListEntriesDynamicFilterKind,
    filter: RoomFilter,
    room: ListedRoom,
    normalized: spec_fn(Seq<char>) -> bool,
    fuzzy: spec_fn(Seq<char>) -> bool,
)
    requires
        is_filter(kind, filter),
    ensures
        lets_through(filter, room, normalized, fuzzy) <==> is_asked_for(
            kind,
            room,
            normalized,
            fuzzy,
        ),
    decreases kind,
{
    reveal_with_fuel(lets_through, 2);
    match kind {
        RoomListEntriesDynamicFilterKind::All { filters } => {
            let made = filter->All_filters;
            assert forall|i: int| 0 <= i < filters@.len() implies lets_through(
                #[trigger] made@[i],
                room,
                normalized,
                fuzzy,
            ) == is_asked_for(filters@[i], room, normalized, fuzzy) by {
                assert(decreases_to!(kind => filters@[i]));
                assert(is_filter(filters@[i], made@[i]));
                lemma_filter_lets_through(filters@[i], made@[i], room, normalized, fuzzy);
            }
        },
        RoomListEntriesDynamicFilterKind::Any { filters } => {
            let made = filter->Any_filters;
            assert forall|i: int| 0 <= i < filters@.len() implies lets_through(
                #[trigger] made@[i],
                room,
                normalized,
                fuzzy,
            ) == is_asked_for(filters@[i], room, normalized, fuzzy) by {
                assert(decreases_to!(kind => filters@[i]));
                assert(is_filter(filters@[i], made@[i]));
                lemma_filter_lets_through(filters@[i], made@[i], room, normalized, fuzzy);
            }
            if is_asked_for(kind, room, normalized, fuzzy) {
                let i = choose|i: int|
                    0 <= i < filters@.len() && is_asked_for(
                        #[trigger] filters@[i],
                        room,
                        normalized,
                        fuzzy,
                    );
                assert(lets_through(made@[i], room, normalized, fuzzy));
            }
        },
        _ => {},
    }
}

/// The list shows the rooms that the kind of filter asks for, and no others: groups under
/// groups, people under people, and so on, however filters are made up of others.
pub proof fn the_list_shows_what_is_asked_for(
    kind: RoomListEntriesDynamicFilterKind,
    filter: RoomFilter,
    room: ListedRoom,
    normalized: spec_fn(Seq<char>) -> bool,
    fuzzy: spec_fn(Seq<char>) -> bool,
)
    requires
        call_ensures(RoomFilter::try_from, (&kind,), Some(filter)),
    ensures
        lets_through(filter, room, normalized, fuzzy) <==> is_asked_for(
            kind,
            room,
            normalized,
            fuzzy,
        ),
{
    lemma_filter_lets_through(kind, filter, room, normalized, fuzzy);
}

/// No room is both among the groups and among the people, and every room is among one of
/// them.
pub proof fn categories_are_apart(
    groups: RoomFilter,
    people: RoomFilter,
    room: ListedRoom,
    normalized: spec_fn(Seq<char>) -> bool,
    fuzzy: spec_fn(Seq<char>) -> bool,
)
    requires
        call_ensures(
            RoomFilter::try_from,
            (&RoomListEntriesDynamicFilterKind::Category {
                expect: RoomListFilterCategory::Group,
            },),
            Some(groups),
        ),
        call_ensures(
            RoomFilter::try_from,
            (&RoomListEntriesDynamicFilterKind::Category {
                expect: RoomListFilterCategory::People,
            },),
            Some(people),
        ),
    ensures
        lets_through(groups, room, normalized, fuzzy) <==> !lets_through(
            people,
            room,
            normalized,
            fuzzy,
        ),
{
    lemma_filter_lets_through(
        RoomListEntriesDynamicFilterKind::Category { expect: RoomListFilterCategory::Group },
        groups,
        room,
        normalized,
        fuzzy,
    );
    lemma_filter_lets_through(
        RoomListEntriesDynamicFilterKind::Category { expect: RoomListFilterCategory::People },
        people,
        room,
        normalized,
        fuzzy,
    );
}

/// A filter is refused only for a text that is not a room ID: all of its parts are made
/// where all of them can be, and one that names rooms is where it names them by their IDs.
pub proof fn filters_are_refused_for_wrong_ids(
    identifiers: Vec<String>,
    parts: Vec<RoomListEntriesDynamicFilterKind>,
    by_id: Option<RoomFilter>,
    all: Option<RoomFilter>,
    any: Option<RoomFilter>,
    each: Seq<Option<RoomFilter>>,
)
    requires
        call_ensures(
            RoomFilter::try_from,
            (&RoomListEntriesDynamicFilterKind::Identifiers { identifiers },),
            by_id,
        ),
        call_ensures(
            RoomFilter::try_from,
            (&RoomListEntriesDynamicFilterKind::All { filters: parts },),
            all,
        ),
        call_ensures(
            RoomFilter::try_from,
            (&RoomListEntriesDynamicFilterKind::Any { filters: parts },),
            any,
        ),
        each.len() == parts@.len(),
        forall|i: int|
            0 <= i < each.len() ==> call_ensures(
                RoomFilter::try_from,
                (&parts@[i],),
                #[trigger] each[i],
            ),
    ensures
        by_id is Some <==> forall|i: int|
            0 <= i < identifiers@.len() ==> room_id_refusal((#[trigger] identifiers@[i])@) is None,
        all is Some <==> forall|i: int| 0 <= i < each.len() ==> (#[trigger] each[i]) is Some,
        any is Some <==> all is Some,
{
    if all is Some {
        assert forall|i: int| 0 <= i < each.len() implies (#[trigger] each[i]) is Some by {
            assert(names_rooms_by_id(parts@[i]));
        }
    }
    if forall|i: int| 0 <= i < each.len() ==> (#[trigger] each[i]) is Some {
        assert forall|i: int| 0 <= i < parts@.len() implies names_rooms_by_id(
            #[trigger] parts@[i],
        ) by {
            assert(each[i] is Some);
        }
    }
}

/// Counts that fit are told as they are, each by its own name, and none is told where none
/// was given. There are notifications if either count is not zero.
pub proof fn unread_counts_are_told(
    highlights: u32,
    notifications: u32,
    counts: UnreadNotificationsCount,
    nothing: UnreadNotificationsCount,
    told: (u32, u32, bool),
)
    requires
        call_ensures(
            UnreadNotificationsCount::from,
            (Some(highlights as u64), Some(notifications as u64)),
            counts,
        ),
        call_ensures(UnreadNotificationsCount::from, (None, None), nothing),
        call_ensures(UnreadNotificationsCount::highlight_count, (&counts,), told.0),
        call_ensures(UnreadNotificationsCount::notification_count, (&counts,), told.1),
        call_ensures(UnreadNotificationsCount::has_notifications, (&counts,), told.2),
    ensures
        told.0 == highlights && told.1 == notifications,
        nothing.highlight_count == 0 && nothing.notification_count == 0,
        told.2 <==> highlights + notifications > 0,
{
}

/// Errors of the list are told as what they are, with their texts.
pub proof fn list_errors_are_told(
    text: String,
    r: (RoomListError, RoomListError, RoomListError, RoomListError),
    room_id: &str,
    checked: Result<(), RoomListError>,
)
    requires
        call_ensures(
            RoomListError::from,
            (SdkRoomListError::SlidingSync { message: text },),
            r.0,
        ),
        call_ensures(
            RoomListError::from,
            (SdkRoomListError::UnknownList { list_name: text },),
            r.1,
        ),
        call_ensures(
            RoomListError::from,
            (SdkRoomListError::RoomNotFound { room_id: text },),
            r.2,
        ),
        call_ensures(RoomListError::from, (SdkRoomListError::EventCache { message: text },), r.3),
        call_ensures(check_listed_room, (room_id,), checked),
    ensures
        r.0 == (RoomListError::SlidingSync { error: text }),
        r.1 == (RoomListError::UnknownList { list_name: text }),
        r.2 == (RoomListError::RoomNotFound { room_name: text }),
        r.3 == (RoomListError::EventCache { error: text }),
        checked is Ok <==> room_id_refusal(room_id@) is None,
{
}

/// Rooms are subscribed to if all of them are named by their IDs; the first that is not is told.
pub proof fn rooms_are_subscribed_to_by_id(ids: Vec<String>, r: Result<(), RoomListError>, i: int)
    requires
        call_ensures(check_subscribed_rooms, (&ids,), r),
    ensures
        r is Ok && 0 <= i < ids@.len() ==> room_id_refusal(ids@[i]@) is None,
        r is Err ==> r->Err_0 is InvalidRoomId && exists|k: int|
            0 <= k < ids@.len() && room_id_refusal((#[trigger] ids@[k])@) is Some,
{
    if r is Err {
        let k = choose|k: int|
            {
                &&& 0 <= k < ids@.len()
                &&& r->Err_0 == (RoomListError::InvalidRoomId { error: #[trigger] ids@[k] })
                &&& room_id_refusal(ids@[k]@) is Some
            };
        assert(room_id_refusal(ids@[k]@) is Some);
    }
}

} // verus!
