//! Matrix identifiers and numbers: what the Matrix types accept, and what a
//! refusal tells the caller.

use ruma::{
    EventId, Int, RoomAliasId, RoomId, RoomOrAliasId, ServerName, TransactionId, UInt, UserId,
};
use vstd::prelude::*;

use crate::error::{texts_error, ClientError};
use crate::text::split_once_spec;

verus! {

/// Why an identifier was refused.
pub struct IdParseError {
    /// The text of the error.
    pub message: String,
    /// Its debug text.
    pub debug: String,
}

/// The texts of a refusal, if there is one.
pub open spec fn refusal(r: Result<(), IdParseError>) -> Option<(Seq<char>, Seq<char>)> {
    match r {
        Ok(_) => None,
        Err(error) => Some((error.message@, error.debug@)),
    }
}

/// What a check answers: nothing for an accepted identifier, the texts of the
/// refusal for any other.
pub open spec fn id_checked(
    refused: Option<(Seq<char>, Seq<char>)>,
    r: Result<(), ClientError>,
) -> bool {
    match refused {
        None => r is Ok,
        Some(texts) => r matches Err(error) && texts_error(texts, error),
    }
}

impl ClientError {
    /// What a refused identifier becomes for the caller.
    pub fn from_id_parse_error(error: IdParseError) -> (r: ClientError)
        ensures
            texts_error((error.message@, error.debug@), r),
    {
        ClientError::from_err(error.message.as_str(), error.debug)
    }
}

/// The message and the debug text with which a user ID is refused, if it is.
pub uninterp spec fn user_id_refusal(id: Seq<char>) -> Option<(Seq<char>, Seq<char>)>;

/// `ruma::UserId::parse`. Claimed: whether the text is a user ID, and the texts of
/// the error where it is not, depend on the text alone.
#[verifier::external_body]
pub(crate) fn parse_user_id(id: &str) -> (r: Result<(), IdParseError>)
    ensures
        refusal(r) == user_id_refusal(id@),
{
    match UserId::parse(id) {
        Ok(_) => Ok(()),
        Err(error) => Err(
            IdParseError { message: error.to_string(), debug: format!("{error:?}") },
        ),
    }
}

/// Checks that the text is a user ID.
pub fn check_user_id(id: &str) -> (r: Result<(), ClientError>)
    ensures
        id_checked(user_id_refusal(id@), r),
{
    match parse_user_id(id) {
        Ok(()) => Ok(()),
        Err(error) => Err(ClientError::from_id_parse_error(error)),
    }
}

/// Whether a text is a user ID.
pub open spec fn is_user_id(id: String) -> bool {
    user_id_refusal(id@) is None
}

/// The user IDs among the texts, in their order.
pub fn keep_user_ids(ids: &Vec<String>) -> (r: Vec<String>)
    ensures
        r@ == ids@.filter(|id: String| is_user_id(id)),
{
    let ghost keep = |id: String| is_user_id(id);
    let mut out: Vec<String> = Vec::new();
    let mut i: usize = 0;
    proof {
        reveal(Seq::filter);
        assert(ids@.take(0).filter(keep) =~= Seq::empty());
    }
    while i < ids.len()
        invariant
            i <= ids.len(),
            keep == (|id: String| is_user_id(id)),
            out@ == ids@.take(i as int).filter(keep),
        decreases ids.len() - i,
    {
        proof {
            reveal(Seq::filter);
            assert(ids@.take(i as int + 1).drop_last() =~= ids@.take(i as int));
            assert(ids@.take(i as int + 1).last() == ids@[i as int]);
        }
        if let Ok(()) = parse_user_id(ids[i].as_str()) {
            out.push(ids[i].clone());
        }
        i = i + 1;
    }
    proof {
        assert(ids@.take(i as int) =~= ids@);
    }
    out
}

/// The message and the debug text with which a room ID is refused, if it is.
pub uninterp spec fn room_id_refusal(id: Seq<char>) -> Option<(Seq<char>, Seq<char>)>;

/// `ruma::RoomId::parse`. Claimed: whether the text is a room ID, and the texts of
/// the error where it is not, depend on the text alone.
#[verifier::external_body]
pub(crate) fn parse_room_id(id: &str) -> (r: Result<(), IdParseError>)
    ensures
        refusal(r) == room_id_refusal(id@),
{
    match RoomId::parse(id) {
        Ok(_) => Ok(()),
        Err(error) => Err(
            IdParseError { message: error.to_string(), debug: format!("{error:?}") },
        ),
    }
}

/// Checks that the text is a room ID.
pub fn check_room_id(id: &str) -> (r: Result<(), ClientError>)
    ensures
        id_checked(room_id_refusal(id@), r),
{
    match parse_room_id(id) {
        Ok(()) => Ok(()),
        Err(error) => Err(ClientError::from_id_parse_error(error)),
    }
}

/// The message and the debug text with which an event ID is refused, if it is.
pub uninterp spec fn event_id_refusal(id: Seq<char>) -> Option<(Seq<char>, Seq<char>)>;

/// `ruma::EventId::parse`. Claimed: whether the text is an event ID, and the texts of
/// the error where it is not, depend on the text alone.
#[verifier::external_body]
pub(crate) fn parse_event_id(id: &str) -> (r: Result<(), IdParseError>)
    ensures
        refusal(r) == event_id_refusal(id@),
{
    match EventId::parse(id) {
        Ok(_) => Ok(()),
        Err(error) => Err(
            IdParseError { message: error.to_string(), debug: format!("{error:?}") },
        ),
    }
}

/// Checks that the text is an event ID.
pub fn check_event_id(id: &str) -> (r: Result<(), ClientError>)
    ensures
        id_checked(event_id_refusal(id@), r),
{
    match parse_event_id(id) {
        Ok(()) => Ok(()),
        Err(error) => Err(ClientError::from_id_parse_error(error)),
    }
}

/// The message and the debug text with which a room alias is refused, if it is.
pub uninterp spec fn room_alias_id_refusal(id: Seq<char>) -> Option<(Seq<char>, Seq<char>)>;

/// `ruma::RoomAliasId::parse`. Claimed: whether the text is a room alias, and the texts of
/// the error where it is not, depend on the text alone.
#[verifier::external_body]
pub(crate) fn parse_room_alias_id(id: &str) -> (r: Result<(), IdParseError>)
    ensures
        refusal(r) == room_alias_id_refusal(id@),
{
    match RoomAliasId::parse(id) {
        Ok(_) => Ok(()),
        Err(error) => Err(
            IdParseError { message: error.to_string(), debug: format!("{error:?}") },
        ),
    }
}

/// Checks that the text is a room alias.
pub fn check_room_alias_id(id: &str) -> (r: Result<(), ClientError>)
    ensures
        id_checked(room_alias_id_refusal(id@), r),
{
    match parse_room_alias_id(id) {
        Ok(()) => Ok(()),
        Err(error) => Err(ClientError::from_id_parse_error(error)),
    }
}

/// The message and the debug text with which a room ID or alias is refused, if it is.
pub uninterp spec fn room_or_alias_id_refusal(id: Seq<char>) -> Option<(Seq<char>, Seq<char>)>;

/// `ruma::RoomOrAliasId::parse`. Claimed: whether the text is a room ID or alias, and the texts of
/// the error where it is not, depend on the text alone.
#[verifier::external_body]
pub(crate) fn parse_room_or_alias_id(id: &str) -> (r: Result<(), IdParseError>)
    ensures
        refusal(r) == room_or_alias_id_refusal(id@),
{
    match RoomOrAliasId::parse(id) {
        Ok(_) => Ok(()),
        Err(error) => Err(
            IdParseError { message: error.to_string(), debug: format!("{error:?}") },
        ),
    }
}

/// Checks that the text is a room ID or alias.
pub fn check_room_or_alias_id(id: &str) -> (r: Result<(), ClientError>)
    ensures
        id_checked(room_or_alias_id_refusal(id@), r),
{
    match parse_room_or_alias_id(id) {
        Ok(()) => Ok(()),
        Err(error) => Err(ClientError::from_id_parse_error(error)),
    }
}

/// The message and the debug text with which a server name is refused, if it is.
pub uninterp spec fn server_name_refusal(id: Seq<char>) -> Option<(Seq<char>, Seq<char>)>;

/// `ruma::ServerName::parse`. Claimed: whether the text is a server name, and the texts of
/// the error where it is not, depend on the text alone.
#[verifier::external_body]
pub(crate) fn parse_server_name(id: &str) -> (r: Result<(), IdParseError>)
    ensures
        refusal(r) == server_name_refusal(id@),
{
    match ServerName::parse(id) {
        Ok(_) => Ok(()),
        Err(error) => Err(
            IdParseError { message: error.to_string(), debug: format!("{error:?}") },
        ),
    }
}

/// Checks that the text is a server name.
pub fn check_server_name(id: &str) -> (r: Result<(), ClientError>)
    ensures
        id_checked(server_name_refusal(id@), r),
{
    match parse_server_name(id) {
        Ok(()) => Ok(()),
        Err(error) => Err(ClientError::from_id_parse_error(error)),
    }
}

/// `ruma::UserId::parse`, then `ruma::UserId::server_name`. Claimed: a user ID
/// is refused as `user_id_refusal` says; in one that is not, there is a colon,
/// and the server name is what follows the first one.
#[verifier::external_body]
pub(crate) fn parse_user_server_name(user_id: &str) -> (r: Result<String, IdParseError>)
    ensures
        match r {
            Ok(name) => user_id_refusal(user_id@) is None && split_once_spec(user_id@, ":"@) is Some
                && name@ == (split_once_spec(user_id@, ":"@)->0).1,
            Err(error) => user_id_refusal(user_id@) == Some((error.message@, error.debug@)),
        },
{
    match UserId::parse(user_id) {
        Ok(user) => Ok(user.server_name().to_string()),
        Err(error) => Err(
            IdParseError { message: error.to_string(), debug: format!("{error:?}") },
        ),
    }
}

/// The largest integer that every number of JavaScript near it can be told
/// apart from.
pub const MAX_SAFE_INT: i64 = 0x001F_FFFF_FFFF_FFFF;

/// Whether a number is a safe integer.
pub open spec fn is_safe_int(value: int) -> bool {
    -MAX_SAFE_INT <= value <= MAX_SAFE_INT
}

/// `ruma::Int::new`. Claimed: it accepts exactly the safe integers, and keeps
/// their value.
#[verifier::external_body]
pub(crate) fn safe_int(value: i64) -> (r: Option<i64>)
    ensures
        r == (if is_safe_int(value as int) {
            Some(value)
        } else {
            None
        }),
{
    Int::new(value).map(|value| value.into())
}

/// `ruma::UInt::new`. Claimed: it accepts exactly the safe integers, and keeps
/// their value.
#[verifier::external_body]
pub(crate) fn safe_uint(value: u64) -> (r: Option<u64>)
    ensures
        r == (if is_safe_int(value as int) {
            Some(value)
        } else {
            None
        }),
{
    UInt::new(value).map(|value| value.into())
}

/// Whether a character is a hexadecimal digit, in lower case.
pub open spec fn is_hex_digit(c: char) -> bool {
    '0' <= c <= '9' || 'a' <= c <= 'f'
}

/// `ruma::TransactionId::new`. Claimed: the ID consists of 32 hexadecimal digits in
/// lower case. Which ones they are is left to chance.
#[verifier::external_body]
fn new_transaction_id() -> (r: String)
    ensures
        r@.len() == 32,
        forall|i: int| 0 <= i < 32 ==> is_hex_digit(#[trigger] r@[i]),
{
    TransactionId::new().to_string()
}

/// A new transaction ID, which tells an event apart that has no event ID yet.
pub fn gen_transaction_id() -> (r: String)
    ensures
        r@.len() == 32,
        forall|i: int| 0 <= i < 32 ==> is_hex_digit(#[trigger] r@[i]),
{
    new_transaction_id()
}

/// What is refused is refused with its texts, and everything else is accepted.
pub proof fn check_user_id_tells_why(id: &str, r: Result<(), ClientError>)
    requires
        call_ensures(check_user_id, (id,), r),
    ensures
        r is Ok <==> user_id_refusal(id@) is None,
        user_id_refusal(id@) matches Some(texts) ==> (r matches Err(ClientError::Generic { msg, details: Some(d) })
            && msg@ == texts.0 && d@ == texts.1),
{
}

/// What is refused is refused with its texts, and everything else is accepted.
pub proof fn check_room_id_tells_why(id: &str, r: Result<(), ClientError>)
    requires
        call_ensures(check_room_id, (id,), r),
    ensures
        r is Ok <==> room_id_refusal(id@) is None,
        room_id_refusal(id@) matches Some(texts) ==> (r matches Err(ClientError::Generic { msg, details: Some(d) })
            && msg@ == texts.0 && d@ == texts.1),
{
}

/// What is refused is refused with its texts, and everything else is accepted.
pub proof fn check_event_id_tells_why(id: &str, r: Result<(), ClientError>)
    requires
        call_ensures(check_event_id, (id,), r),
    ensures
        r is Ok <==> event_id_refusal(id@) is None,
        event_id_refusal(id@) matches Some(texts) ==> (r matches Err(ClientError::Generic { msg, details: Some(d) })
            && msg@ == texts.0 && d@ == texts.1),
{
}

/// What is refused is refused with its texts, and everything else is accepted.
pub proof fn check_room_alias_id_tells_why(id: &str, r: Result<(), ClientError>)
    requires
        call_ensures(check_room_alias_id, (id,), r),
    ensures
        r is Ok <==> room_alias_id_refusal(id@) is None,
        room_alias_id_refusal(id@) matches Some(texts) ==> (r matches Err(ClientError::Generic { msg, details: Some(d) })
            && msg@ == texts.0 && d@ == texts.1),
{
}

/// What is refused is refused with its texts, and everything else is accepted.
pub proof fn check_room_or_alias_id_tells_why(id: &str, r: Result<(), ClientError>)
    requires
        call_ensures(check_room_or_alias_id, (id,), r),
    ensures
        r is Ok <==> room_or_alias_id_refusal(id@) is None,
        room_or_alias_id_refusal(id@) matches Some(texts) ==> (r matches Err(ClientError::Generic { msg, details: Some(d) })
            && msg@ == texts.0 && d@ == texts.1),
{
}

/// What is refused is refused with its texts, and everything else is accepted.
pub proof fn check_server_name_tells_why(id: &str, r: Result<(), ClientError>)
    requires
        call_ensures(check_server_name, (id,), r),
    ensures
        r is Ok <==> server_name_refusal(id@) is None,
        server_name_refusal(id@) matches Some(texts) ==> (r matches Err(ClientError::Generic { msg, details: Some(d) })
            && msg@ == texts.0 && d@ == texts.1),
{
}

/// Exactly the user IDs among texts are kept, and all of them where all are.
pub proof fn user_ids_are_kept(ids: Vec<String>, r: Vec<String>, id: String)
    requires
        call_ensures(keep_user_ids, (&ids,), r),
    ensures
        r@.contains(id) <==> ids@.contains(id) && user_id_refusal(id@) is None,
        r@.len() <= ids@.len(),
{
    let keep = |id: String| is_user_id(id);
    ids@.lemma_filter_len(keep);
    if r@.contains(id) {
        let i = choose|i: int| 0 <= i < r@.len() && r@[i] == id;
        ids@.lemma_filter_pred(keep, i);
        ids@.lemma_filter_contains_rev(keep, id);
    }
    if ids@.contains(id) && user_id_refusal(id@) is None {
        let i = choose|i: int| 0 <= i < ids@.len() && ids@[i] == id;
        ids@.lemma_filter_contains(keep, i);
    }
}

} // verus!
