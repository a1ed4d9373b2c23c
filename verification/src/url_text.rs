//! URLs.

use url::Url;
use vstd::prelude::*;

verus! {

/// The URL that a text reads as, in its normal form, if it is one.
pub uninterp spec fn url_reading(text: Seq<char>) -> Option<Seq<char>>;

/// `url::Url::parse`. Claimed: whether the text is a URL, and the normal form of
/// the URL, depend on the text alone.
#[verifier::external_body]
pub(crate) fn read_url(text: &str) -> (r: Option<String>)
    ensures
        match r {
            Some(url) => url_reading(text@) == Some(url@),
            None => url_reading(text@) is None,
        },
{
    Url::parse(text).ok().map(String::from)
}

} // verus!
