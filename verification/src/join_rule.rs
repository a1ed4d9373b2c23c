//! Who can join a room.

use vstd::prelude::*;

use crate::error::{texts_error, ClientError};
use crate::ids::{check_room_id, id_checked, room_id_refusal};
use crate::json::{allow_rule_refusal, join_rule_refusal, parse_allow_rule, parse_join_rule};
use crate::text::concat2;

verus! {

/// The rule that says who can join a room.
pub enum JoinRule {
    /// Anyone can join the room without any prior action.
    Public,
    /// Only those who were invited by someone in the room.
    Invite,
    /// Those who were invited, or whose request for an invite was allowed.
    Knock,
    /// Reserved, not in use.
    Private,
    /// Those who were invited, or who meet one of the rules.
    Restricted { rules: Vec<AllowRule> },
    /// Those who were invited, who meet one of the rules, or whose request for an
    /// invite was allowed.
    KnockRestricted { rules: Vec<AllowRule> },
    /// Any other rule, up for interpretation by the consumer.
    Custom { repr: String },
}

/// A condition that allows joining a room.
pub enum AllowRule {
    /// The members of another room can join.
    RoomMembership { room_id: String },
    /// Any other condition, in its JSON form.
    Custom { json: String },
}

/// The texts with which a condition is refused, if it is: a room has to be named
/// by a room ID, and anything else has to be JSON.
pub open spec fn condition_refusal(rule: AllowRule) -> Option<(Seq<char>, Seq<char>)> {
    match rule {
        AllowRule::RoomMembership { room_id } => room_id_refusal(room_id@),
        AllowRule::Custom { json } => allow_rule_refusal(json@),
    }
}

/// The texts with which the first refused condition of a list is refused, if one
/// is.
pub open spec fn conditions_refusal(rules: Seq<AllowRule>) -> Option<(Seq<char>, Seq<char>)>
    decreases rules.len(),
{
    if rules.len() == 0 {
        None
    } else if conditions_refusal(rules.drop_last()) is Some {
        conditions_refusal(rules.drop_last())
    } else {
        condition_refusal(rules.last())
    }
}

impl AllowRule {
    /// Checks that a room can have this condition.
    pub fn check(&self) -> (r: Result<(), ClientError>)
        ensures
            id_checked(condition_refusal(*self), r),
    {
        match self {
            AllowRule::RoomMembership { room_id } => check_room_id(room_id.as_str()),
            AllowRule::Custom { json } => match parse_allow_rule(json.as_str()) {
                Ok(()) => Ok(()),
                Err(error) => Err(ClientError::from_json_error(error)),
            },
        }
    }
}

/// Checks that a room can have these conditions; the first that it cannot have
/// ends the check.
pub fn check_allow_rules(rules: &Vec<AllowRule>) -> (r: Result<(), ClientError>)
    ensures
        id_checked(conditions_refusal(rules@), r),
{
    let mut i: usize = 0;
    while i < rules.len()
        invariant
            i <= rules.len(),
            conditions_refusal(rules@.take(i as int)) is None,
        decreases rules.len() - i,
    {
        let ghost seen = rules@.take(i as int + 1);
        proof {
            assert(seen.drop_last() =~= rules@.take(i as int));
        }
        match rules[i].check() {
            Ok(()) => {},
            Err(error) => {
                proof {
                    lemma_first_refusal_stays(rules@, i as int + 1);
                }
                return Err(error);
            },
        }
        i = i + 1;
    }
    proof {
        assert(rules@.take(i as int) =~= rules@);
    }
    Ok(())
}

/// What the first conditions are refused with, the whole list is refused with.
proof fn lemma_first_refusal_stays(rules: Seq<AllowRule>, n: int)
    requires
        0 <= n <= rules.len(),
        conditions_refusal(rules.take(n)) is Some,
    ensures
        conditions_refusal(rules) == conditions_refusal(rules.take(n)),
    decreases rules.len() - n,
{
    if n < rules.len() {
        assert(rules.take(n + 1).drop_last() =~= rules.take(n));
        lemma_first_refusal_stays(rules, n + 1);
    } else {
        assert(rules.take(n) =~= rules);
    }
}

impl JoinRule {
    /// The texts with which the rule is refused, if it is.
    pub open spec fn refused(self) -> Option<(Seq<char>, Seq<char>)> {
        match self {
            JoinRule::Restricted { rules } => conditions_refusal(rules@),
            JoinRule::KnockRestricted { rules } => conditions_refusal(rules@),
            JoinRule::Custom { repr } => join_rule_refusal(repr@),
            _ => None,
        }
    }

    /// The rule itself, if a room can have it: the conditions have to be well
    /// formed, and a custom rule has to be the JSON form of a join rule.
    pub fn checked(self) -> (r: Result<JoinRule, ClientError>)
        ensures
            match self.refused() {
                None => r == Ok::<JoinRule, ClientError>(self),
                Some(texts) => r matches Err(error) && texts_error(texts, error),
            },
    {
        let result: Result<(), ClientError> = match &self {
            JoinRule::Restricted { rules } => check_allow_rules(rules),
            JoinRule::KnockRestricted { rules } => check_allow_rules(rules),
            JoinRule::Custom { repr } => match parse_join_rule(repr.as_str()) {
                Ok(()) => Ok(()),
                Err(error) => Err(ClientError::from_json_error(error)),
            },
            _ => Ok(()),
        };
        match result {
            Ok(()) => Ok(self),
            Err(error) => Err(error),
        }
    }
}

/// The join rule of a room, as the SDK has it.
pub enum SdkJoinRule {
    Public,
    Invite,
    Knock,
    Private,
    Restricted { allow: Vec<SdkAllowRule> },
    KnockRestricted { allow: Vec<SdkAllowRule> },
    /// A rule of another kind, with the name of the kind.
    Custom { kind: String },
    /// A rule that this library does not know, with its debug text.
    Unknown { debug: String },
}

/// A condition of a restricted room, as the SDK has it.
pub enum SdkAllowRule {
    RoomMembership { room_id: String },
    /// A condition of another kind: its JSON form, or the debug text of the error
    /// that came up on writing it.
    Custom { json: Result<String, String> },
    /// A condition that this library does not know, with its debug text.
    Unknown { debug: String },
}

/// What a condition of the SDK becomes, or what is said of it.
pub open spec fn condition_of(rule: SdkAllowRule, r: Result<AllowRule, String>) -> bool {
    match rule {
        SdkAllowRule::RoomMembership { room_id } => r == Ok::<AllowRule, String>(
            AllowRule::RoomMembership { room_id },
        ),
        SdkAllowRule::Custom { json: Ok(json) } => r == Ok::<AllowRule, String>(
            AllowRule::Custom { json },
        ),
        SdkAllowRule::Custom { json: Err(debug) } => {
            &&& r matches Err(text)
            &&& text@ == "Couldn't serialize custom AllowRule: "@ + debug@
        },
        SdkAllowRule::Unknown { debug } => {
            &&& r matches Err(text)
            &&& text@ == "Invalid AllowRule: "@ + debug@
        },
    }
}

/// What a list of conditions becomes: each condition in its place, or what is said
/// of the first that is not known.
pub open spec fn conditions_of(allow: Seq<SdkAllowRule>, r: Result<Seq<AllowRule>, String>) -> bool {
    match r {
        Ok(rules) => {
            &&& rules.len() == allow.len()
            &&& forall|i: int|
                0 <= i < allow.len() ==> condition_of(
                    #[trigger] allow[i],
                    Ok::<AllowRule, String>(rules[i]),
                )
        },
        Err(text) => exists|i: int|
            {
                &&& 0 <= i < allow.len()
                &&& condition_of(#[trigger] allow[i], Err::<AllowRule, String>(text))
                &&& forall|j: int| 0 <= j < i ==> is_known_condition(#[trigger] allow[j])
            },
    }
}

/// Whether a condition of the SDK can be handed on.
pub open spec fn is_known_condition(rule: SdkAllowRule) -> bool {
    match rule {
        SdkAllowRule::RoomMembership { .. } => true,
        SdkAllowRule::Custom { json } => json is Ok,
        SdkAllowRule::Unknown { .. } => false,
    }
}

impl AllowRule {
    /// What a condition of the SDK becomes.
    pub fn try_from(value: &SdkAllowRule) -> (r: Result<AllowRule, String>)
        ensures
            condition_of(*value, r),
    {
        match value {
            SdkAllowRule::RoomMembership { room_id } => Ok(
                AllowRule::RoomMembership { room_id: room_id.clone() },
            ),
            SdkAllowRule::Custom { json: Ok(json) } => Ok(AllowRule::Custom { json: json.clone() }),
            SdkAllowRule::Custom { json: Err(debug) } => Err(
                concat2("Couldn't serialize custom AllowRule: ", debug.as_str()),
            ),
            SdkAllowRule::Unknown { debug } => Err(concat2("Invalid AllowRule: ", debug.as_str())),
        }
    }
}

/// What the conditions of a restricted room become.
pub fn allow_rules_from_sdk(allow: &Vec<SdkAllowRule>) -> (r: Result<Vec<AllowRule>, String>)
    ensures
        match r {
            Ok(rules) => conditions_of(allow@, Ok::<Seq<AllowRule>, String>(rules@)),
            Err(text) => conditions_of(allow@, Err::<Seq<AllowRule>, String>(text)),
        },
{
    let mut rules: Vec<AllowRule> = Vec::new();
    let mut i: usize = 0;
    while i < allow.len()
        invariant
            i <= allow.len(),
            rules@.len() == i,
            forall|j: int|
                0 <= j < i ==> condition_of(
                    #[trigger] allow@[j],
                    Ok::<AllowRule, String>(rules@[j]),
                ),
        decreases allow.len() - i,
    {
        match AllowRule::try_from(&allow[i]) {
            Ok(rule) => rules.push(rule),
            Err(text) => {
                proof {
                    assert(condition_of(allow@[i as int], Err::<AllowRule, String>(text)));
                }
                return Err(text);
            },
        }
        i = i + 1;
    }
    Ok(rules)
}

/// What a join rule of the SDK becomes, or what is said of it.
pub open spec fn join_rule_of(value: SdkJoinRule, r: Result<JoinRule, String>) -> bool {
    match value {
        SdkJoinRule::Public => r == Ok::<JoinRule, String>(JoinRule::Public),
        SdkJoinRule::Invite => r == Ok::<JoinRule, String>(JoinRule::Invite),
        SdkJoinRule::Knock => r == Ok::<JoinRule, String>(JoinRule::Knock),
        SdkJoinRule::Private => r == Ok::<JoinRule, String>(JoinRule::Private),
        SdkJoinRule::Restricted { allow } => match r {
            Ok(rule) => rule is Restricted && conditions_of(
                allow@,
                Ok::<Seq<AllowRule>, String>(rule->Restricted_rules@),
            ),
            Err(text) => conditions_of(allow@, Err::<Seq<AllowRule>, String>(text)),
        },
        SdkJoinRule::KnockRestricted { allow } => match r {
            Ok(rule) => rule is KnockRestricted && conditions_of(
                allow@,
                Ok::<Seq<AllowRule>, String>(rule->KnockRestricted_rules@),
            ),
            Err(text) => conditions_of(allow@, Err::<Seq<AllowRule>, String>(text)),
        },
        SdkJoinRule::Custom { kind } => r == Ok::<JoinRule, String>(
            JoinRule::Custom { repr: kind },
        ),
        SdkJoinRule::Unknown { debug } => r matches Err(text) && text@ == "Unknown JoinRule: "@
            + debug@,
    }
}

/// What the join rule of a room becomes, if there is one and it can be handed on.
pub open spec fn join_rule_if_known(value: Option<SdkJoinRule>, r: Option<JoinRule>) -> bool {
    match value {
        Some(value) => match r {
            Some(rule) => join_rule_of(value, Ok::<JoinRule, String>(rule)),
            None => exists|text: String| #[trigger]
                join_rule_of(value, Err::<JoinRule, String>(text)),
        },
        None => r is None,
    }
}

impl JoinRule {
    /// What a join rule of the SDK becomes. Of a custom rule only the name of its
    /// kind is kept.
    pub fn try_from(value: SdkJoinRule) -> (r: Result<JoinRule, String>)
        ensures
            join_rule_of(value, r),
    {
        match value {
            SdkJoinRule::Public => Ok(JoinRule::Public),
            SdkJoinRule::Invite => Ok(JoinRule::Invite),
            SdkJoinRule::Knock => Ok(JoinRule::Knock),
            SdkJoinRule::Private => Ok(JoinRule::Private),
            SdkJoinRule::Restricted { allow } => match allow_rules_from_sdk(&allow) {
                Ok(rules) => Ok(JoinRule::Restricted { rules }),
                Err(text) => Err(text),
            },
            SdkJoinRule::KnockRestricted { allow } => match allow_rules_from_sdk(&allow) {
                Ok(rules) => Ok(JoinRule::KnockRestricted { rules }),
                Err(text) => Err(text),
            },
            SdkJoinRule::Custom { kind } => Ok(JoinRule::Custom { repr: kind }),
            SdkJoinRule::Unknown { debug } => Err(concat2("Unknown JoinRule: ", debug.as_str())),
        }
    }

    /// What the join rule of a room becomes, if there is one and it can be handed
    /// on.
    pub fn if_known(value: Option<SdkJoinRule>) -> (r: Option<JoinRule>)
        ensures
            join_rule_if_known(value, r),
    {
        match value {
            Some(value) => match JoinRule::try_from(value) {
                Ok(rule) => Some(rule),
                Err(text) => {
                    assert(join_rule_of(value, Err::<JoinRule, String>(text)));
                    None
                },
            },
            None => None,
        }
    }
}

/// Whether all conditions name a room by its ID.
pub open spec fn names_only_rooms(allow: Seq<SdkAllowRule>) -> bool {
    forall|i: int|
        0 <= i < allow.len() ==> (#[trigger] allow[i] matches SdkAllowRule::RoomMembership { room_id }
            && room_id_refusal(room_id@) is None)
}

/// The conditions of a room whose members can join another one, once read, are
/// accepted when a room is to have them.
pub proof fn read_conditions_are_accepted(allow: Seq<SdkAllowRule>, rules: Seq<AllowRule>)
    requires
        names_only_rooms(allow),
        conditions_of(allow, Ok::<Seq<AllowRule>, String>(rules)),
    ensures
        conditions_refusal(rules) is None,
    decreases rules.len(),
{
    if rules.len() > 0 {
        let n = rules.len() - 1;
        assert(condition_of(allow[n], Ok::<AllowRule, String>(rules[n])));
        assert forall|i: int| 0 <= i < n implies condition_of(
            #[trigger] allow.drop_last()[i],
            Ok::<AllowRule, String>(rules.drop_last()[i]),
        ) by {
            assert(condition_of(allow[i], Ok::<AllowRule, String>(rules[i])));
        }
        assert(names_only_rooms(allow.drop_last())) by {
            assert forall|i: int| 0 <= i < allow.drop_last().len() implies (
            #[trigger] allow.drop_last()[i] matches SdkAllowRule::RoomMembership { room_id }
                && room_id_refusal(room_id@) is None) by {
                assert(allow[i] is RoomMembership);
            }
        }
        read_conditions_are_accepted(allow.drop_last(), rules.drop_last());
    }
}

/// A condition is accepted if and only if it names a room by its ID, or is the JSON form of a
/// rule; conditions are if all of them are.
pub proof fn conditions_are_accepted_one_by_one(
    rules: Vec<AllowRule>,
    all: Result<(), ClientError>,
    i: int,
    one: Result<(), ClientError>,
)
    requires
        call_ensures(check_allow_rules, (&rules,), all),
        0 <= i < rules@.len(),
        call_ensures(AllowRule::check, (&rules@[i],), one),
    ensures
        one is Ok <==> match rules@[i] {
            AllowRule::RoomMembership { room_id } => room_id_refusal(room_id@) is None,
            AllowRule::Custom { json } => allow_rule_refusal(json@) is None,
        },
        all is Ok ==> one is Ok,
        all is Err ==> exists|k: int|
            0 <= k < rules@.len() && condition_refusal(#[trigger] rules@[k]) is Some,
{
    lemma_refused_conditions(rules@);
}

/// Conditions are refused if and only if one of them is.
proof fn lemma_refused_conditions(rules: Seq<AllowRule>)
    ensures
        conditions_refusal(rules) is None <==> forall|k: int|
            0 <= k < rules.len() ==> condition_refusal(#[trigger] rules[k]) is None,
    decreases rules.len(),
{
    if rules.len() > 0 {
        let front = rules.drop_last();
        lemma_refused_conditions(front);
        if conditions_refusal(rules) is None {
            assert forall|k: int| 0 <= k < rules.len() implies condition_refusal(
                #[trigger] rules[k],
            ) is None by {
                if k < front.len() {
                    assert(front[k] == rules[k]);
                }
            }
        } else if conditions_refusal(front) is Some {
            let k = choose|k: int|
                0 <= k < front.len() && condition_refusal(#[trigger] front[k]) is Some;
            assert(rules[k] == front[k]);
        } else {
            assert(condition_refusal(rules[rules.len() - 1]) is Some);
        }
    }
}

/// A join rule that a room can have is kept as it is, and one without conditions can always be
/// had.
pub proof fn join_rules_are_kept(rule: JoinRule, r: Result<JoinRule, ClientError>)
    requires
        call_ensures(JoinRule::checked, (rule,), r),
    ensures
        r matches Ok(kept) ==> kept == rule,
        rule is Public || rule is Invite || rule is Knock || rule is Private ==> r is Ok,
        rule matches JoinRule::Custom { repr } ==> (r is Ok <==> join_rule_refusal(repr@) is None),
{
}

/// The rule of a room is read as what it is, with a condition for each of its conditions; only a
/// rule or a condition that is not known cannot be read.
pub proof fn join_rules_are_read(
    value: SdkJoinRule,
    r: Result<JoinRule, String>,
    known: Option<JoinRule>,
)
    requires
        call_ensures(JoinRule::try_from, (value,), r),
        call_ensures(JoinRule::if_known, (Some(value),), known),
    ensures
        value is Public ==> r == Ok::<JoinRule, String>(JoinRule::Public) && known == Some(
            JoinRule::Public,
        ),
        value is Invite ==> r == Ok::<JoinRule, String>(JoinRule::Invite) && known == Some(
            JoinRule::Invite,
        ),
        value is Knock ==> r == Ok::<JoinRule, String>(JoinRule::Knock) && known == Some(
            JoinRule::Knock,
        ),
        value is Private ==> r == Ok::<JoinRule, String>(JoinRule::Private) && known == Some(
            JoinRule::Private,
        ),
        value matches SdkJoinRule::Custom { kind } ==> r == Ok::<JoinRule, String>(
            JoinRule::Custom { repr: kind },
        ),
        value is Unknown ==> r is Err && known is None,
        value matches SdkJoinRule::Restricted { allow } ==> {
            &&& r is Ok ==> r->Ok_0 is Restricted && r->Ok_0->Restricted_rules@.len() == allow@.len()
            &&& r is Err ==> exists|i: int|
                0 <= i < allow@.len() && !is_known_condition(#[trigger] allow@[i])
        },
        value matches SdkJoinRule::KnockRestricted { allow } ==> {
            &&& r is Ok ==> r->Ok_0 is KnockRestricted && r->Ok_0->KnockRestricted_rules@.len()
                == allow@.len()
            &&& r is Err ==> exists|i: int|
                0 <= i < allow@.len() && !is_known_condition(#[trigger] allow@[i])
        },
{
    match value {
        SdkJoinRule::Restricted { allow } => {
            if let Err(text) = r {
                let i = choose|i: int|
                    {
                        &&& 0 <= i < allow@.len()
                        &&& condition_of(#[trigger] allow@[i], Err::<AllowRule, String>(text))
                        &&& forall|j: int| 0 <= j < i ==> is_known_condition(#[trigger] allow@[j])
                    };
                assert(!is_known_condition(allow@[i]));
            }
        },
        SdkJoinRule::KnockRestricted { allow } => {
            if let Err(text) = r {
                let i = choose|i: int|
                    {
                        &&& 0 <= i < allow@.len()
                        &&& condition_of(#[trigger] allow@[i], Err::<AllowRule, String>(text))
                        &&& forall|j: int| 0 <= j < i ==> is_known_condition(#[trigger] allow@[j])
                    };
                assert(!is_known_condition(allow@[i]));
            }
        },
        _ => {},
    }
}

/// A condition is read as the room or the JSON that it has.
pub proof fn conditions_are_read(
    room_id: String,
    json: String,
    debug: String,
    r: (
        Result<AllowRule, String>,
        Result<AllowRule, String>,
        Result<AllowRule, String>,
        Result<AllowRule, String>,
    ),
)
    requires
        call_ensures(AllowRule::try_from, (&SdkAllowRule::RoomMembership { room_id },), r.0),
        call_ensures(
            AllowRule::try_from,
            (&SdkAllowRule::Custom { json: Ok::<String, String>(json) },),
            r.1,
        ),
        call_ensures(
            AllowRule::try_from,
            (&SdkAllowRule::Custom { json: Err::<String, String>(debug) },),
            r.2,
        ),
        call_ensures(AllowRule::try_from, (&SdkAllowRule::Unknown { debug },), r.3),
    ensures
        r.0 == Ok::<AllowRule, String>(AllowRule::RoomMembership { room_id }),
        r.1 == Ok::<AllowRule, String>(AllowRule::Custom { json }),
        r.2 is Err && r.3 is Err,
{
}

/// Conditions are read one for one, in their order.
pub proof fn conditions_are_read_in_order(
    allow: Vec<SdkAllowRule>,
    r: Result<Vec<AllowRule>, String>,
    restricted: Result<JoinRule, String>,
    knock: Result<JoinRule, String>,
    i: int,
)
    requires
        call_ensures(allow_rules_from_sdk, (&allow,), r),
        call_ensures(JoinRule::try_from, (SdkJoinRule::Restricted { allow },), restricted),
        call_ensures(JoinRule::try_from, (SdkJoinRule::KnockRestricted { allow },), knock),
        0 <= i < allow@.len(),
    ensures
        r is Ok ==> r->Ok_0@.len() == allow@.len(),
        r is Ok ==> match allow@[i] {
            SdkAllowRule::RoomMembership { room_id } => r->Ok_0@[i] == (AllowRule::RoomMembership {
                room_id,
            }),
            SdkAllowRule::Custom { json } => json is Ok && r->Ok_0@[i] == (AllowRule::Custom {
                json: json->Ok_0,
            }),
            SdkAllowRule::Unknown { .. } => false,
        },
        restricted is Ok ==> (allow@[i] matches SdkAllowRule::RoomMembership { room_id }
            ==> restricted->Ok_0->Restricted_rules@[i] == (AllowRule::RoomMembership { room_id })),
        knock is Ok ==> (allow@[i] matches SdkAllowRule::RoomMembership { room_id }
            ==> knock->Ok_0->KnockRestricted_rules@[i] == (AllowRule::RoomMembership { room_id })),
{
    if r is Ok {
        assert(condition_of(allow@[i], Ok::<AllowRule, String>(r->Ok_0@[i])));
    }
    if let Ok(rule) = restricted {
        assert(condition_of(allow@[i], Ok::<AllowRule, String>(rule->Restricted_rules@[i])));
    }
    if let Ok(rule) = knock {
        assert(condition_of(allow@[i], Ok::<AllowRule, String>(rule->KnockRestricted_rules@[i])));
    }
}

} // verus!
