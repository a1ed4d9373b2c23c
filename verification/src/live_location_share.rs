//! Users who share where they are.

use vstd::prelude::*;

use crate::duration::Duration;
use crate::list_update::{are_items, items_of, ListItem, ListUpdate};

verus! {

/// Whose location it is.
#[derive(Clone, Copy, Debug, PartialEq, Eq, Structural)]
pub enum AssetType {
    /// That of the sender.
    Sender,
    /// That of a pin on a map.
    Pin,
}

/// A location.
pub struct LocationContent {
    pub body: String,
    pub geo_uri: String,
    pub description: Option<String>,
    pub zoom_level: Option<u8>,
    pub asset: Option<AssetType>,
}

/// The last location that is known.
pub struct LastLocation {
    pub location: LocationContent,
    /// When the user was there, in milliseconds since the Unix epoch.
    pub ts: u64,
}

/// A user who shares where they are.
pub struct LiveLocationShare {
    /// The last location that is known.
    pub last_location: Option<LastLocation>,
    /// The user.
    pub user_id: String,
    /// When the user started to share, in milliseconds since the Unix epoch.
    pub start_ts: u64,
    /// For how long the user shares, in milliseconds.
    pub timeout: u64,
}

/// A user who shares where they are, as the SDK has it.
pub struct SdkLiveLocationShare {
    pub user_id: String,
    /// The URI of the last location that is known, and when the user was there.
    pub last_location: Option<(String, u64)>,
    pub start_ts: u64,
    pub timeout: Duration,
    pub asset: Option<AssetType>,
}

/// A location of which nothing is known but where it is.
pub open spec fn bare_location(
    geo_uri: String,
    asset: Option<AssetType>,
    location: LocationContent,
) -> bool {
    &&& location.body@ == ""@
    &&& location.geo_uri == geo_uri
    &&& location.description is None
    &&& location.zoom_level is None
    &&& location.asset == asset
}

/// A location of which nothing is known but where it is.
fn new_bare_location(geo_uri: String, asset: Option<AssetType>) -> (r: LocationContent)
    ensures
        bare_location(geo_uri, asset, r),
{
    LocationContent { body: "".to_owned(), geo_uri, description: None, zoom_level: None, asset }
}

impl ListItem<SdkLiveLocationShare> for LiveLocationShare {
    open spec fn is_item(share: SdkLiveLocationShare, item: LiveLocationShare) -> bool {
        &&& item.user_id == share.user_id
        &&& item.start_ts == share.start_ts
        &&& item.timeout == share.timeout.millis() as u64
        &&& match share.last_location {
            Some((geo_uri, ts)) => {
                &&& item.last_location matches Some(last)
                &&& bare_location(geo_uri, share.asset, last.location)
                &&& last.ts == ts
            },
            None => item.last_location is None,
        }
    }

    fn from_element(share: SdkLiveLocationShare) -> (item: LiveLocationShare) {
        let millis: u128 = share.timeout.as_millis();
        let last_location: Option<LastLocation> = match share.last_location {
            Some((geo_uri, ts)) => Some(
                LastLocation { location: new_bare_location(geo_uri, share.asset), ts },
            ),
            None => None,
        };
        LiveLocationShare {
            last_location,
            user_id: share.user_id,
            start_ts: share.start_ts,
            timeout: #[verifier::truncate]
            (millis as u64),
        }
    }
}

/// A change of the list of those who share where they are.
pub type LiveLocationShareUpdate = ListUpdate<LiveLocationShare>;

/// Told of changes of the list of those who share where they are.
pub trait LiveLocationShareListener {
    fn on_update(&self, updates: Vec<LiveLocationShareUpdate>);
}

/// What a listener is told at first: the list, if there is anyone in it.
pub fn initial_update(values: Vec<SdkLiveLocationShare>) -> (r: Option<LiveLocationShareUpdate>)
    ensures
        r is Some <==> values@.len() > 0,
        r matches Some(update) ==> {
            &&& update matches ListUpdate::Reset { values: items }
            &&& are_items::<SdkLiveLocationShare, LiveLocationShare>(values@, items@)
        },
{
    if values.len() == 0 {
        None
    } else {
        Some(ListUpdate::Reset { values: items_of(values) })
    }
}

/// A location that a user shared.
pub struct ObservedLocation {
    pub last_location: LastLocation,
    pub is_live: bool,
    pub user_id: String,
}

/// What is told of a location that a user shared. Nothing is told if it is not known
/// whether the user still shares it.
pub fn observed_location(
    user_id: String,
    geo_uri: String,
    ts: u64,
    is_live: Option<bool>,
) -> (r: Option<ObservedLocation>)
    ensures
        r is Some <==> is_live is Some,
        r matches Some(observed) ==> {
            &&& bare_location(geo_uri, None, observed.last_location.location)
            &&& observed.last_location.ts == ts
            &&& observed.is_live == is_live->0
            &&& observed.user_id == user_id
        },
{
    match is_live {
        Some(is_live) => Some(
            ObservedLocation {
                last_location: LastLocation { location: new_bare_location(geo_uri, None), ts },
                is_live,
                user_id,
            },
        ),
        None => None,
    }
}

/// A location is observed where it is known whether it is live, with the place, the time and
/// the user that were told.
pub proof fn locations_are_observed(
    user_id: String,
    geo_uri: String,
    ts: u64,
    is_live: Option<bool>,
    r: Option<ObservedLocation>,
)
    requires
        call_ensures(observed_location, (user_id, geo_uri, ts, is_live), r),
    ensures
        r is Some <==> is_live is Some,
        r is Some ==> r->0.user_id == user_id && Some(r->0.is_live) == is_live,
        r is Some ==> r->0.last_location.ts == ts && r->0.last_location.location.geo_uri == geo_uri,
{
}

/// Who shares where they are is told with the last place that is known, its time, and the time
/// for which it is shared.
pub proof fn shares_are_told(share: SdkLiveLocationShare, item: LiveLocationShare)
    requires
        <LiveLocationShare as ListItem<SdkLiveLocationShare>>::is_item(share, item),
    ensures
        item.user_id == share.user_id && item.start_ts == share.start_ts,
        share.timeout.secs < 1_000_000_000_000 ==> item.timeout == share.timeout.secs * 1000
            + share.timeout.nanos / 1_000_000,
        item.last_location is Some <==> share.last_location is Some,
        share.last_location matches Some((geo_uri, ts)) ==> item.last_location->0.ts == ts
            && item.last_location->0.location.geo_uri == geo_uri
            && item.last_location->0.location.asset == share.asset,
{
}

/// The first update has everyone who shares where they are, and there is none where nobody does.
pub proof fn the_first_update_has_everyone(
    values: Vec<SdkLiveLocationShare>,
    r: Option<LiveLocationShareUpdate>,
    i: int,
)
    requires
        call_ensures(initial_update, (values,), r),
    ensures
        r is None <==> values@.len() == 0,
        r is Some ==> r->0 is Reset && r->0->Reset_values@.len() == values@.len(),
        r is Some && 0 <= i < values@.len() ==> r->0->Reset_values@[i].user_id == values@[i].user_id
            && r->0->Reset_values@[i].start_ts == values@[i].start_ts,
{
    if r is Some && 0 <= i < values@.len() {
        assert(<LiveLocationShare as ListItem<SdkLiveLocationShare>>::is_item(
            values@[i],
            r->0->Reset_values@[i],
        ));
    }
}

} // verus!
