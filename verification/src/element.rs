//! Settings of a homeserver for Element applications.

use vstd::prelude::*;

use crate::error::{texts_error, ClientError};
use crate::json::JsonError;

verus! {

/// Settings for calls.
pub struct ElementCallWellKnown {
    pub widget_url: String,
}

/// Settings for Element applications.
pub struct ElementWellKnown {
    pub call: Option<ElementCallWellKnown>,
    pub registration_helper_url: Option<String>,
}

/// The settings, from what came of reading them.
pub fn make_element_well_known(read: Result<ElementWellKnown, JsonError>) -> (r: Result<
    ElementWellKnown,
    ClientError,
>)
    ensures
        match read {
            Ok(settings) => r == Ok::<ElementWellKnown, ClientError>(settings),
            Err(json_error) => r matches Err(error) && texts_error(
                (json_error.message@, json_error.debug@),
                error,
            ),
        },
{
    match read {
        Ok(settings) => Ok(settings),
        Err(error) => Err(ClientError::from_json_error(error)),
    }
}

/// What a homeserver says for Element applications is taken as it reads, and is an error where it
/// does not.
pub proof fn settings_are_taken_as_they_read(
    read: Result<ElementWellKnown, JsonError>,
    r: Result<ElementWellKnown, ClientError>,
)
    requires
        call_ensures(make_element_well_known, (read,), r),
    ensures
        r is Ok <==> read is Ok,
        r is Ok ==> r->Ok_0 == read->Ok_0,
{
}

} // verus!
