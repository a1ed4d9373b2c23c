//! JSON texts: what is accepted as JSON, and what a refusal tells the caller.

use ruma::room::{AllowRule as RumaAllowRule, JoinRule as RumaJoinRule};
use ruma::serde::Raw;
use vstd::prelude::*;

use crate::error::{texts_error, ClientError};

verus! {

/// Why a JSON text was refused.
pub struct JsonError {
    /// The text of the error.
    pub message: String,
    /// Its debug text.
    pub debug: String,
}

impl ClientError {
    /// What a refused JSON text becomes for the caller.
    pub fn from_json_error(error: JsonError) -> (r: ClientError)
        ensures
            texts_error((error.message@, error.debug@), r),
    {
        ClientError::from_err(error.message.as_str(), error.debug)
    }
}

/// The texts of a refusal, if there is one.
pub open spec fn json_refusal(r: Result<(), JsonError>) -> Option<(Seq<char>, Seq<char>)> {
    match r {
        Ok(_) => None,
        Err(error) => Some((error.message@, error.debug@)),
    }
}

/// What a text reads as: the JSON value in its compact form, or the message and
/// the debug text with which it is refused.
pub uninterp spec fn json_reading(text: Seq<char>) -> Result<Seq<char>, (Seq<char>, Seq<char>)>;

/// `serde_json::from_str` into a `serde_json::Value`, then
/// `serde_json::Value::to_string`. Claimed: whether the text is JSON, the compact
/// form of its value, and the texts of the error where it is not JSON, depend on
/// the text alone.
#[verifier::external_body]
pub(crate) fn read_json(text: &str) -> (r: Result<String, JsonError>)
    ensures
        match r {
            Ok(compact) => json_reading(text@) == Ok::<Seq<char>, (Seq<char>, Seq<char>)>(compact@),
            Err(error) => json_reading(text@) == Err::<Seq<char>, (Seq<char>, Seq<char>)>(
                (error.message@, error.debug@),
            ),
        },
{
    match serde_json::from_str::<serde_json::Value>(text) {
        Ok(value) => Ok(value.to_string()),
        Err(error) => Err(JsonError { message: error.to_string(), debug: format!("{error:?}") }),
    }
}

/// What a text reads as where it is kept as it is written: the JSON value in it, or
/// the message and the debug text with which it is refused.
pub uninterp spec fn raw_json_reading(text: Seq<char>) -> Result<
    Seq<char>,
    (Seq<char>, Seq<char>),
>;

/// `ruma::serde::Raw::from_json_string`, and the text that the outcome holds. Claimed:
/// whether the text is JSON, the text of its value, and the texts of the error where
/// it is not JSON, depend on the text alone.
#[verifier::external_body]
pub(crate) fn read_raw_json(text: String) -> (r: Result<String, JsonError>)
    ensures
        match r {
            Ok(json) => raw_json_reading(text@) == Ok::<Seq<char>, (Seq<char>, Seq<char>)>(json@),
            Err(error) => raw_json_reading(text@) == Err::<Seq<char>, (Seq<char>, Seq<char>)>(
                (error.message@, error.debug@),
            ),
        },
{
    match Raw::<serde_json::Value>::from_json_string(text) {
        Ok(raw) => Ok(raw.json().get().to_owned()),
        Err(error) => Err(JsonError { message: error.to_string(), debug: format!("{error:?}") }),
    }
}

/// The message and the debug text with which a text is refused as a join rule,
/// if it is.
pub uninterp spec fn join_rule_refusal(json: Seq<char>) -> Option<(Seq<char>, Seq<char>)>;

/// `serde_json::from_str` into a `ruma::room::JoinRule`. Claimed: whether the text
/// is the JSON form of a join rule, and the texts of the error where it is not,
/// depend on the text alone.
#[verifier::external_body]
pub(crate) fn parse_join_rule(json: &str) -> (r: Result<(), JsonError>)
    ensures
        json_refusal(r) == join_rule_refusal(json@),
{
    match serde_json::from_str::<RumaJoinRule>(json) {
        Ok(_) => Ok(()),
        Err(error) => Err(JsonError { message: error.to_string(), debug: format!("{error:?}") }),
    }
}

/// The message and the debug text with which a text is refused as a custom allow
/// rule, if it is.
pub uninterp spec fn allow_rule_refusal(json: Seq<char>) -> Option<(Seq<char>, Seq<char>)>;

/// `serde_json::from_str` into the custom form of a `ruma::room::AllowRule`.
/// Claimed: whether the text is the JSON form of such a rule, and the texts of the
/// error where it is not, depend on the text alone.
#[verifier::external_body]
pub(crate) fn parse_allow_rule(json: &str) -> (r: Result<(), JsonError>)
    ensures
        json_refusal(r) == allow_rule_refusal(json@),
{
    match serde_json::from_str(json).map(RumaAllowRule::_Custom) {
        Ok(_) => Ok(()),
        Err(error) => Err(JsonError { message: error.to_string(), debug: format!("{error:?}") }),
    }
}

} // verus!
