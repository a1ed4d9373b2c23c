//! Events that stay in a room for a while.

use vstd::prelude::*;

use crate::json::{json_reading, read_json, JsonError};

verus! {

/// The key under which a sticky event is tracked. There is at most one live event
/// per key in a room.
pub struct StickyKey {
    /// The sender of the event.
    pub sender: String,
    /// The type of the event.
    pub event_type: String,
    /// The `content.sticky_key` of the event.
    pub sticky_key: String,
}

impl View for StickyKey {
    type V = (Seq<char>, Seq<char>, Seq<char>);

    open spec fn view(&self) -> (Seq<char>, Seq<char>, Seq<char>) {
        (self.sender@, self.event_type@, self.sticky_key@)
    }
}

/// A sticky event that is live in a room. `E` says how it was encrypted.
pub struct StickyEvent<E> {
    /// The key of the event.
    pub key: StickyKey,
    /// The event ID.
    pub event_id: String,
    /// When the event stops being sticky, in milliseconds since the Unix epoch.
    pub expires_at_ms: u64,
    /// The event in JSON, decrypted if it was encrypted.
    pub event_json: String,
    /// How the event was encrypted, if it was.
    pub encryption_info: Option<E>,
}

/// A sticky event that is no longer live. `R` says why.
pub struct StickyEventRemoval<R> {
    pub key: StickyKey,
    pub reason: R,
}

/// A change of the sticky events of a room.
pub enum StickyEventsUpdate<E, R> {
    /// All events that are live.
    Reset { events: Vec<StickyEvent<E>> },
    /// What changed.
    Changes {
        /// Events under a key that had none.
        added: Vec<StickyEvent<E>>,
        /// Events that took the place of the one with the same key.
        updated: Vec<StickyEvent<E>>,
        /// Keys that have no event any more.
        removed: Vec<StickyEventRemoval<R>>,
    },
}

/// A change of the sticky events of a room, as the SDK has it.
pub struct SdkStickyEventsUpdate<E, R> {
    pub added: Vec<StickyEvent<E>>,
    pub updated: Vec<StickyEvent<E>>,
    pub removed: Vec<(StickyKey, R)>,
}

/// Told of the sticky events of a room.
pub trait StickyEventsListener<E, R> {
    fn on_update(&self, update: StickyEventsUpdate<E, R>);
}

impl<E, R> StickyEventsUpdate<E, R> {
    /// What changed.
    pub fn from(update: SdkStickyEventsUpdate<E, R>) -> (r: StickyEventsUpdate<E, R>)
        ensures
            r matches StickyEventsUpdate::Changes { added, updated, removed } && added
                == update.added && updated == update.updated && removed@
                == update.removed@.map_values(
                |entry: (StickyKey, R)| StickyEventRemoval { key: entry.0, reason: entry.1 },
            ),
    {
        let ghost all = update.removed@;
        let ghost f = |entry: (StickyKey, R)| StickyEventRemoval { key: entry.0, reason: entry.1 };
        let mut removed: Vec<StickyEventRemoval<R>> = Vec::new();
        for entry in iter: update.removed.into_iter()
            invariant
                iter.seq() == all,
                f == (|entry: (StickyKey, R)| StickyEventRemoval { key: entry.0, reason: entry.1 }),
                removed@ == all.take(iter.index()).map_values(f),
        {
            let ghost i = iter.index();
            removed.push(StickyEventRemoval { key: entry.0, reason: entry.1 });
            proof {
                assert(removed@ =~= all.take(i + 1).map_values(f));
            }
        }
        proof {
            assert(all.take(all.len() as int) =~= all);
        }
        StickyEventsUpdate::Changes { added: update.added, updated: update.updated, removed }
    }
}

/// What comes from the channel of changes.
pub enum StickySignal<E, R> {
    Update(SdkStickyEventsUpdate<E, R>),
    /// Changes were missed.
    Lagged,
    /// There are no more changes.
    Closed,
}

/// What to do with what came from the channel.
pub enum StickyStep<E, R> {
    /// Tell the listener what changed.
    Tell(StickyEventsUpdate<E, R>),
    /// Tell the listener all events that are live.
    TellAll,
    /// Stop.
    Stop,
}

/// What to do with what came from the channel: a change is told, and after changes
/// were missed, all live events are.
pub fn sticky_step<E, R>(signal: StickySignal<E, R>) -> (r: StickyStep<E, R>)
    ensures
        match signal {
            StickySignal::Update(update) => {
                &&& r matches StickyStep::Tell(told)
                &&& told matches StickyEventsUpdate::Changes { added, updated, removed }
                &&& added == update.added
                &&& updated == update.updated
                &&& removed@ == update.removed@.map_values(
                    |entry: (StickyKey, R)| StickyEventRemoval { key: entry.0, reason: entry.1 },
                )
            },
            StickySignal::Lagged => r is TellAll,
            StickySignal::Closed => r is Stop,
        },
{
    match signal {
        StickySignal::Update(update) => StickyStep::Tell(StickyEventsUpdate::from(update)),
        StickySignal::Lagged => StickyStep::TellAll,
        StickySignal::Closed => StickyStep::Stop,
    }
}

/// The keys of events.
pub type StickyKeyView = (Seq<char>, Seq<char>, Seq<char>);

/// A map of events by their keys, with these events set in it one after the other.
pub open spec fn with_events<E>(
    live: Map<StickyKeyView, StickyEvent<E>>,
    events: Seq<StickyEvent<E>>,
) -> Map<StickyKeyView, StickyEvent<E>>
    decreases events.len(),
{
    if events.len() == 0 {
        live
    } else {
        with_events(live, events.drop_last()).insert(events.last().key@, events.last())
    }
}

/// The keys of removals.
pub open spec fn removed_keys<R>(removed: Seq<StickyEventRemoval<R>>) -> Set<StickyKeyView> {
    Set::new(
        |key: StickyKeyView|
            exists|i: int| 0 <= i < removed.len() && (#[trigger] removed[i]).key@ == key,
    )
}

/// The live events of a listener after an update.
pub open spec fn after_update<E, R>(
    live: Map<StickyKeyView, StickyEvent<E>>,
    update: StickyEventsUpdate<E, R>,
) -> Map<StickyKeyView, StickyEvent<E>> {
    match update {
        StickyEventsUpdate::Reset { events } => with_events(Map::empty(), events@),
        StickyEventsUpdate::Changes { added, updated, removed } => with_events(
            with_events(live, added@),
            updated@,
        ).remove_keys(removed_keys(removed@)),
    }
}

/// What setting events does to a key depends on the map only for keys of other
/// events.
proof fn lemma_with_events<E>(
    a: Map<StickyKeyView, StickyEvent<E>>,
    b: Map<StickyKeyView, StickyEvent<E>>,
    events: Seq<StickyEvent<E>>,
    key: StickyKeyView,
)
    requires
        a.dom().contains(key) <==> b.dom().contains(key),
        a.dom().contains(key) ==> a[key] == b[key],
    ensures
        with_events(a, events).dom().contains(key) <==> with_events(b, events).dom().contains(key),
        with_events(a, events).dom().contains(key) ==> with_events(a, events)[key] == with_events(
            b,
            events,
        )[key],
    decreases events.len(),
{
    if events.len() > 0 {
        lemma_with_events(a, b, events.drop_last(), key);
    }
}

/// Setting events that are set already changes nothing at any key that is set by
/// them, and nothing at the others.
proof fn lemma_with_events_again<E>(
    live: Map<StickyKeyView, StickyEvent<E>>,
    added: Seq<StickyEvent<E>>,
    updated: Seq<StickyEvent<E>>,
    key: StickyKeyView,
)
    ensures
        ({
            let once = with_events(with_events(live, added), updated);
            let twice = with_events(with_events(once, added), updated);
            &&& twice.dom().contains(key) <==> once.dom().contains(key)
            &&& once.dom().contains(key) ==> twice[key] == once[key]
        }),
{
    let once = with_events(with_events(live, added), updated);
    lemma_set_or_kept(live, added, key);
    lemma_set_or_kept(with_events(live, added), updated, key);
    lemma_set_or_kept(once, added, key);
    lemma_set_or_kept(with_events(once, added), updated, key);
    if sets(updated, key) {
        lemma_set_is_set(with_events(live, added), with_events(once, added), updated, key);
    } else if sets(added, key) {
        lemma_set_is_set(live, once, added, key);
    }
}

/// Whether one of the events has the key.
spec fn sets<E>(events: Seq<StickyEvent<E>>, key: StickyKeyView) -> bool {
    exists|i: int| 0 <= i < events.len() && (#[trigger] events[i]).key@ == key
}

/// A key that no event has keeps its event.
proof fn lemma_set_or_kept<E>(
    live: Map<StickyKeyView, StickyEvent<E>>,
    events: Seq<StickyEvent<E>>,
    key: StickyKeyView,
)
    ensures
        !sets(events, key) ==> (with_events(live, events).dom().contains(key)
            <==> live.dom().contains(key)) && (live.dom().contains(key) ==> with_events(
            live,
            events,
        )[key] == live[key]),
        sets(events, key) ==> with_events(live, events).dom().contains(key),
    decreases events.len(),
{
    if events.len() > 0 {
        let rest = events.drop_last();
        lemma_set_or_kept(live, rest, key);
        assert(events[events.len() - 1] == events.last());
        if sets(events, key) && events.last().key@ != key {
            let i = choose|i: int| 0 <= i < events.len() && (#[trigger] events[i]).key@ == key;
            assert(rest[i].key@ == key);
        }
        if sets(rest, key) {
            let i = choose|i: int| 0 <= i < rest.len() && (#[trigger] rest[i]).key@ == key;
            assert(events[i].key@ == key);
        }
    }
}

/// A key that an event has gets the same event, whatever the map.
proof fn lemma_set_is_set<E>(
    a: Map<StickyKeyView, StickyEvent<E>>,
    b: Map<StickyKeyView, StickyEvent<E>>,
    events: Seq<StickyEvent<E>>,
    key: StickyKeyView,
)
    requires
        sets(events, key),
    ensures
        with_events(a, events)[key] == with_events(b, events)[key],
    decreases events.len(),
{
    let rest = events.drop_last();
    if events.last().key@ != key {
        let i = choose|i: int| 0 <= i < events.len() && (#[trigger] events[i]).key@ == key;
        assert(rest[i].key@ == key);
        lemma_set_is_set(a, b, rest, key);
    }
}

/// An update that was applied already can be applied again: nothing changes. So a
/// change that made it into the first list of live events and is told afterwards is
/// harmless.
pub proof fn updates_can_be_applied_again<E, R>(
    live: Map<StickyKeyView, StickyEvent<E>>,
    update: StickyEventsUpdate<E, R>,
)
    ensures
        after_update(after_update(live, update), update) == after_update(live, update),
{
    if let StickyEventsUpdate::Changes { added, updated, removed } = update {
        let gone = removed_keys(removed@);
        let set_once = with_events(with_events(live, added@), updated@);
        let once = after_update(live, update);
        let twice = after_update(once, update);
        assert forall|key: StickyKeyView|
            #![trigger twice.dom().contains(key)]
            #![trigger once.dom().contains(key)]
            #![trigger twice[key]]
            (twice.dom().contains(key) <==> once.dom().contains(key)) && (once.dom().contains(key)
                ==> twice[key] == once[key]) by {
            if !gone.contains(key) {
                lemma_with_events_again(live, added@, updated@, key);
                lemma_with_events(once, set_once, added@, key);
                lemma_with_events(
                    with_events(once, added@),
                    with_events(set_once, added@),
                    updated@,
                    key,
                );
            }
        }
        assert(twice =~= once);
    }
}

/// How long an event is sticky at most, in milliseconds: one hour.
pub const MAX_STICKY_DURATION_MS: u64 = 3_600_000;

/// A sticky event to be sent.
pub struct StickySend {
    pub event_type: String,
    /// The content, in the compact form of JSON.
    pub content: String,
    pub duration_ms: u64,
}

/// The sticky event to be sent: its content has to be JSON, and it is sticky for one
/// hour at most.
pub fn sticky_send(event_type: String, content: String, duration_ms: u64) -> (r: Result<
    StickySend,
    JsonError,
>)
    ensures
        match json_reading(content@) {
            Ok(compact) => {
                &&& r matches Ok(send)
                &&& send.event_type == event_type
                &&& send.content@ == compact
                &&& send.duration_ms == (if duration_ms <= MAX_STICKY_DURATION_MS {
                    duration_ms
                } else {
                    MAX_STICKY_DURATION_MS
                })
            },
            Err(texts) => r matches Err(error) && error.message@ == texts.0 && error.debug@
                == texts.1,
        },
{
    match read_json(content.as_str()) {
        Ok(content) => {
            let duration_ms: u64 = if duration_ms <= MAX_STICKY_DURATION_MS {
                duration_ms
            } else {
                MAX_STICKY_DURATION_MS
            };
            Ok(StickySend { event_type, content, duration_ms })
        },
        Err(error) => Err(error),
    }
}

/// An update is told as it came: what was added, what was updated, and what was removed with its
/// reason; who lagged behind is told everything, and nothing more is told after the end.
pub proof fn updates_are_told_as_they_came<E, R>(
    update: SdkStickyEventsUpdate<E, R>,
    told: StickyStep<E, R>,
    lagged: StickyStep<E, R>,
    closed: StickyStep<E, R>,
    i: int,
)
    requires
        call_ensures(sticky_step::<E, R>, (StickySignal::Update(update),), told),
        call_ensures(sticky_step::<E, R>, (StickySignal::Lagged,), lagged),
        call_ensures(sticky_step::<E, R>, (StickySignal::Closed,), closed),
        0 <= i < update.removed@.len(),
    ensures
        lagged is TellAll && closed is Stop,
        told matches StickyStep::Tell(StickyEventsUpdate::Changes { added, updated, removed })
            && added == update.added && updated == update.updated && removed@.len()
            == update.removed@.len() && removed@[i].key == update.removed@[i].0
            && removed@[i].reason == update.removed@[i].1,
{
}

/// After an update the events that were added or updated last are there, and those that were
/// removed are not; the rest stays.
pub proof fn updates_have_their_effect<E, R>(
    live: Map<StickyKeyView, StickyEvent<E>>,
    event: StickyEvent<E>,
    other: StickyKeyView,
    removal: StickyEventRemoval<R>,
    none: Vec<StickyEvent<E>>,
    one: Vec<StickyEvent<E>>,
    nothing: Vec<StickyEventRemoval<R>>,
    gone: Vec<StickyEventRemoval<R>>,
)
    requires
        none@.len() == 0 && nothing@.len() == 0,
        one@ == seq![event],
        gone@ == seq![removal],
        other != event.key@ && other != removal.key@,
    ensures
        ({
            let added = after_update(
                live,
                StickyEventsUpdate::<E, R>::Changes {
                    added: one,
                    updated: none,
                    removed: nothing,
                },
            );
            let updated = after_update(
                live,
                StickyEventsUpdate::<E, R>::Changes {
                    added: none,
                    updated: one,
                    removed: nothing,
                },
            );
            let removed = after_update(
                live,
                StickyEventsUpdate::<E, R>::Changes { added: none, updated: none, removed: gone },
            );
            let reset = after_update(live, StickyEventsUpdate::<E, R>::Reset { events: one });
            &&& added.contains_key(event.key@) && added[event.key@] == event
            &&& updated.contains_key(event.key@) && updated[event.key@] == event
            &&& !removed.contains_key(removal.key@)
            &&& live.contains_key(other) ==> added.contains_key(other) && added[other]
                == live[other] && removed.contains_key(other) && removed[other] == live[other]
            &&& reset.contains_key(event.key@) && !reset.contains_key(other)
        }),
{
    reveal_with_fuel(with_events, 3);
    assert(one@.drop_last() =~= Seq::empty());
    assert(one@.last() == event);
    assert(gone@[0] == removal);
    let keys = removed_keys(gone@);
    assert(keys.contains(removal.key@));
    assert(!keys.contains(other)) by {
        if keys.contains(other) {
            let i = choose|i: int| 0 <= i < gone@.len() && (#[trigger] gone@[i]).key@ == other;
        }
    }
    assert(!removed_keys(nothing@).contains(event.key@));
    assert(!removed_keys(nothing@).contains(other));
}

/// A sticky event is sent with its type and content for as long as was asked for, an hour at most;
/// only what is not JSON is refused.
pub proof fn sticky_events_are_sent(
    event_type: String,
    content: String,
    duration_ms: u64,
    r: Result<StickySend, JsonError>,
)
    requires
        call_ensures(sticky_send, (event_type, content, duration_ms), r),
    ensures
        r is Ok <==> json_reading(content@) is Ok,
        r is Ok ==> r->Ok_0.event_type == event_type && r->Ok_0.content@ == json_reading(
            content@,
        )->Ok_0,
        r is Ok ==> r->Ok_0.duration_ms <= duration_ms && r->Ok_0.duration_ms <= 3_600_000,
        r is Ok && duration_ms <= 3_600_000 ==> r->Ok_0.duration_ms == duration_ms,
        r is Ok && duration_ms > 3_600_000 ==> r->Ok_0.duration_ms == 3_600_000,
{
}

} // verus!
