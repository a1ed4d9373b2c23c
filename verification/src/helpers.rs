//! Small helpers.

use std::sync::Arc;

use vstd::prelude::*;

verus! {

/// `std::sync::Arc::try_unwrap`. Claimed: the inner value, or else the very
/// same `Arc`.
#[verifier::external_body]
fn try_unwrap_arc<T>(arc: Arc<T>) -> (r: Result<T, Arc<T>>)
    ensures
        match r {
            Ok(value) => value == *arc,
            Err(shared) => shared == arc,
        },
{
    Arc::try_unwrap(arc)
}

/// The value that the `Arc` holds, or a clone of it where others hold it too.
pub fn unwrap_or_clone_arc<T: Clone>(arc: Arc<T>) -> (r: T)
    ensures
        r == *arc || cloned(*arc, r),
{
    match try_unwrap_arc(arc) {
        Ok(value) => value,
        Err(shared) => (*shared).clone(),
    }
}

} // verus!
