//! Push rules, and which notifications a user gets from a room.

use vstd::prelude::*;

use crate::error::NotificationSettingsError;
use crate::ids::{is_safe_int, parse_room_id, room_id_refusal, safe_int, safe_uint};
use crate::json::{json_reading, read_json};
use crate::text::{concat2, same};

verus! {

/// How a number is compared.
#[derive(Clone, Copy, Debug, PartialEq, Eq, Structural)]
pub enum ComparisonOperator {
    /// Equals
    Eq,
    /// Less than
    Lt,
    /// Greater than
    Gt,
    /// Greater or equal
    Ge,
    /// Less or equal
    Le,
}

/// A JSON value that is neither an array nor an object.
pub enum JsonValue {
    Null,
    Bool { value: bool },
    Integer { value: i64 },
    String { value: String },
}

/// A value with an integer that JSON numbers can hold: any other integer becomes
/// zero.
pub open spec fn safe_value(value: JsonValue) -> JsonValue {
    match value {
        JsonValue::Integer { value } => JsonValue::Integer {
            value: if is_safe_int(value as int) {
                value
            } else {
                0
            },
        },
        other => other,
    }
}

impl JsonValue {
    /// The value with an integer that JSON numbers can hold.
    pub fn to_safe(&self) -> (r: JsonValue)
        ensures
            r == safe_value(*self),
    {
        match self {
            JsonValue::Null => JsonValue::Null,
            JsonValue::Bool { value } => JsonValue::Bool { value: *value },
            JsonValue::Integer { value } => JsonValue::Integer {
                value: match safe_int(*value) {
                    Some(value) => value,
                    None => 0,
                },
            },
            JsonValue::String { value } => JsonValue::String { value: value.clone() },
        }
    }
}

/// A condition of a push rule.
pub enum PushCondition {
    /// A glob pattern match on a field of the event.
    EventMatch { key: String, pattern: String },
    /// The message contains the display name of the user.
    ContainsDisplayName,
    /// The number of members of the room.
    RoomMemberCount { prefix: ComparisonOperator, count: u64 },
    /// The sender has the power level that it takes to notify.
    SenderNotificationPermission { key: String },
    /// A property of the event has this value.
    EventPropertyIs { key: String, value: JsonValue },
    /// An array property of the event has this value in it.
    EventPropertyContains { key: String, value: JsonValue },
}

/// A condition of a push rule, as the SDK has it: one that is known, or one that is
/// not.
pub enum SdkPushCondition {
    Known { condition: PushCondition },
    Unknown,
}

/// A condition whose numbers JSON can hold.
pub open spec fn safe_condition(condition: PushCondition) -> PushCondition {
    match condition {
        PushCondition::RoomMemberCount { prefix, count } => PushCondition::RoomMemberCount {
            prefix,
            count: if is_safe_int(count as int) {
                count
            } else {
                0
            },
        },
        PushCondition::EventPropertyIs { key, value } => PushCondition::EventPropertyIs {
            key,
            value: safe_value(value),
        },
        PushCondition::EventPropertyContains { key, value } => PushCondition::EventPropertyContains {
            key,
            value: safe_value(value),
        },
        other => other,
    }
}

impl PushCondition {
    /// What a condition of the SDK becomes.
    pub fn try_from(value: SdkPushCondition) -> (r: Result<PushCondition, String>)
        ensures
            match value {
                SdkPushCondition::Known { condition } => r == Ok::<PushCondition, String>(
                    condition,
                ),
                SdkPushCondition::Unknown => r matches Err(text) && text@
                    == "Unsupported condition type"@,
            },
    {
        match value {
            SdkPushCondition::Known { condition } => Ok(condition),
            SdkPushCondition::Unknown => Err("Unsupported condition type".to_owned()),
        }
    }

    /// The condition with which a push rule is made.
    pub fn to_safe(&self) -> (r: PushCondition)
        ensures
            r == safe_condition(*self),
    {
        match self {
            PushCondition::EventMatch { key, pattern } => PushCondition::EventMatch {
                key: key.clone(),
                pattern: pattern.clone(),
            },
            PushCondition::ContainsDisplayName => PushCondition::ContainsDisplayName,
            PushCondition::RoomMemberCount { prefix, count } => PushCondition::RoomMemberCount {
                prefix: *prefix,
                count: match safe_uint(*count) {
                    Some(count) => count,
                    None => 0,
                },
            },
            PushCondition::SenderNotificationPermission { key } => {
                PushCondition::SenderNotificationPermission { key: key.clone() }
            },
            PushCondition::EventPropertyIs { key, value } => PushCondition::EventPropertyIs {
                key: key.clone(),
                value: value.to_safe(),
            },
            PushCondition::EventPropertyContains { key, value } => {
                PushCondition::EventPropertyContains { key: key.clone(), value: value.to_safe() }
            },
        }
    }
}

/// A condition that a push rule was made with is made into itself.
pub proof fn safe_condition_stays(condition: PushCondition)
    ensures
        safe_condition(safe_condition(condition)) == safe_condition(condition),
{
}

/// The kind of a push rule.
pub enum RuleKind {
    /// Rules of the user that override all others.
    Override,
    /// Rules of the user with the lowest priority.
    Underride,
    /// Rules for a sender.
    Sender,
    /// Rules for a room.
    Room,
    /// Rules for the content of messages.
    Content,
    /// Any other rules.
    Custom { value: String },
}

impl RuleKind {
    /// The name that the kind goes by.
    pub open spec fn name(self) -> Seq<char> {
        match self {
            RuleKind::Override => "override"@,
            RuleKind::Underride => "underride"@,
            RuleKind::Sender => "sender"@,
            RuleKind::Room => "room"@,
            RuleKind::Content => "content"@,
            RuleKind::Custom { value } => value@,
        }
    }

    /// Whether a name is one of those with a meaning of their own.
    pub open spec fn is_standard(name: Seq<char>) -> bool {
        name == "override"@ || name == "underride"@ || name == "sender"@ || name == "room"@ || name
            == "content"@
    }

    /// The kind that goes by a name.
    pub fn from(name: &str) -> (r: RuleKind)
        ensures
            r.name() == name@,
            r is Custom <==> !Self::is_standard(name@),
    {
        if same(name, "override") {
            RuleKind::Override
        } else if same(name, "underride") {
            RuleKind::Underride
        } else if same(name, "sender") {
            RuleKind::Sender
        } else if same(name, "room") {
            RuleKind::Room
        } else if same(name, "content") {
            RuleKind::Content
        } else {
            RuleKind::Custom { value: name.to_owned() }
        }
    }

    /// The name that the kind goes by.
    pub fn as_str(&self) -> (r: &str)
        ensures
            r@ == self.name(),
    {
        match self {
            RuleKind::Override => "override",
            RuleKind::Underride => "underride",
            RuleKind::Sender => "sender",
            RuleKind::Room => "room",
            RuleKind::Content => "content",
            RuleKind::Custom { value } => value.as_str(),
        }
    }
}

/// How a notification is shown.
pub enum Tweak {
    /// The sound to be played.
    Sound { value: String },
    /// Whether the message is highlighted.
    Highlight { value: bool },
    /// Anything else: its name, and its value in JSON.
    Custom { name: String, value: String },
}

/// A tweak, as the SDK has it.
pub enum SdkTweak {
    Sound { value: String },
    Highlight { value: bool },
    /// Anything else: its name, and its value in JSON or the text of the error
    /// that came up on writing it.
    Custom { name: String, value: Result<String, String> },
    /// One that is not known.
    Unknown,
}

/// What a tweak of the SDK becomes.
pub open spec fn tweak_of(value: SdkTweak, r: Result<Tweak, String>) -> bool {
    match value {
        SdkTweak::Sound { value } => r == Ok::<Tweak, String>(Tweak::Sound { value }),
        SdkTweak::Highlight { value } => r == Ok::<Tweak, String>(Tweak::Highlight { value }),
        SdkTweak::Custom { name, value: Ok(value) } => r == Ok::<Tweak, String>(
            Tweak::Custom { name, value },
        ),
        SdkTweak::Custom { name, value: Err(error) } => {
            &&& r matches Err(text)
            &&& text@ == "Failed to serialize custom tweak value: "@ + error@
        },
        SdkTweak::Unknown => r matches Err(text) && text@ == "Unsupported tweak type"@,
    }
}

/// The tweak that a push rule is made with: the value of a custom one has to be
/// JSON, and is taken in its compact form.
pub open spec fn tweak_for_rule(tweak: Tweak, r: Result<Tweak, String>) -> bool {
    match tweak {
        Tweak::Custom { name, value } => match json_reading(value@) {
            Ok(compact) => {
                &&& r matches Ok(Tweak::Custom { name: n, value: v })
                &&& n == name
                &&& v@ == compact
            },
            Err(texts) => {
                &&& r matches Err(text)
                &&& text@ == "Failed to deserialize custom tweak value: "@ + texts.0
            },
        },
        other => r == Ok::<Tweak, String>(other),
    }
}

impl Tweak {
    /// What a tweak of the SDK becomes.
    pub fn try_from(value: &SdkTweak) -> (r: Result<Tweak, String>)
        ensures
            tweak_of(*value, r),
    {
        match value {
            SdkTweak::Sound { value } => Ok(Tweak::Sound { value: value.clone() }),
            SdkTweak::Highlight { value } => Ok(Tweak::Highlight { value: *value }),
            SdkTweak::Custom { name, value: Ok(value) } => Ok(
                Tweak::Custom { name: name.clone(), value: value.clone() },
            ),
            SdkTweak::Custom { name: _, value: Err(error) } => Err(
                concat2("Failed to serialize custom tweak value: ", error.as_str()),
            ),
            SdkTweak::Unknown => Err("Unsupported tweak type".to_owned()),
        }
    }

    /// The tweak that a push rule is made with.
    pub fn for_rule(self) -> (r: Result<Tweak, String>)
        ensures
            tweak_for_rule(self, r),
    {
        match self {
            Tweak::Custom { name, value } => match read_json(value.as_str()) {
                Ok(compact) => Ok(Tweak::Custom { name, value: compact }),
                Err(error) => Err(
                    concat2("Failed to deserialize custom tweak value: ", error.message.as_str()),
                ),
            },
            other => Ok(other),
        }
    }
}

/// What a push rule does.
pub enum Action {
    /// Events that match give a notification.
    Notify,
    /// The notification is shown in some way.
    SetTweak { value: Tweak },
}

/// An action of a push rule, as the SDK has it.
pub enum SdkAction {
    Notify,
    SetTweak { value: SdkTweak },
    /// One that is not known.
    Unknown,
}

/// What an action of the SDK becomes.
pub open spec fn action_of(value: SdkAction, r: Result<Action, String>) -> bool {
    match value {
        SdkAction::Notify => r == Ok::<Action, String>(Action::Notify),
        SdkAction::SetTweak { value } => match r {
            Ok(action) => action is SetTweak && tweak_of(
                value,
                Ok::<Tweak, String>(action->SetTweak_value),
            ),
            Err(text) => exists|inner: String|
                {
                    &&& #[trigger] tweak_of(value, Err::<Tweak, String>(inner))
                    &&& text@ == "Failed to convert tweak: "@ + inner@
                },
        },
        SdkAction::Unknown => r matches Err(text) && text@ == "Unsupported action type"@,
    }
}

/// Whether an action of the SDK can be handed on.
pub open spec fn is_known_action(value: SdkAction) -> bool {
    match value {
        SdkAction::Notify => true,
        SdkAction::SetTweak { value: SdkTweak::Custom { name, value } } => value is Ok,
        SdkAction::SetTweak { value: SdkTweak::Unknown } => false,
        SdkAction::SetTweak { value } => true,
        SdkAction::Unknown => false,
    }
}

/// What an action that can be handed on becomes.
pub open spec fn known_action(value: SdkAction) -> Action {
    match value {
        SdkAction::SetTweak { value: SdkTweak::Sound { value } } => Action::SetTweak {
            value: Tweak::Sound { value },
        },
        SdkAction::SetTweak { value: SdkTweak::Highlight { value } } => Action::SetTweak {
            value: Tweak::Highlight { value },
        },
        SdkAction::SetTweak { value: SdkTweak::Custom { name, value } } => Action::SetTweak {
            value: Tweak::Custom { name, value: value->Ok_0 },
        },
        _ => Action::Notify,
    }
}

/// The action that a push rule is made with.
pub open spec fn action_for_rule(action: Action, r: Result<Action, String>) -> bool {
    match action {
        Action::Notify => r == Ok::<Action, String>(Action::Notify),
        Action::SetTweak { value } => match r {
            Ok(made) => made is SetTweak && tweak_for_rule(
                value,
                Ok::<Tweak, String>(made->SetTweak_value),
            ),
            Err(text) => exists|inner: String|
                {
                    &&& #[trigger] tweak_for_rule(value, Err::<Tweak, String>(inner))
                    &&& text@ == "Failed to convert tweak: "@ + inner@
                },
        },
    }
}

/// Whether a push rule can be made with an action.
pub open spec fn is_rule_action(action: Action) -> bool {
    action matches Action::SetTweak { value: Tweak::Custom { name, value } } ==> json_reading(
        value@,
    ) is Ok
}

impl Action {
    /// What an action of the SDK becomes.
    pub fn try_from(value: &SdkAction) -> (r: Result<Action, String>)
        ensures
            action_of(*value, r),
            r is Ok <==> is_known_action(*value),
            r matches Ok(action) ==> action == known_action(*value),
    {
        match value {
            SdkAction::Notify => Ok(Action::Notify),
            SdkAction::SetTweak { value } => match Tweak::try_from(value) {
                Ok(value) => Ok(Action::SetTweak { value }),
                Err(inner) => {
                    let text: String = concat2("Failed to convert tweak: ", inner.as_str());
                    assert(tweak_of(*value, Err::<Tweak, String>(inner)));
                    Err(text)
                },
            },
            SdkAction::Unknown => Err("Unsupported action type".to_owned()),
        }
    }

    /// The action that a push rule is made with.
    pub fn for_rule(self) -> (r: Result<Action, String>)
        ensures
            action_for_rule(self, r),
            r is Ok <==> is_rule_action(self),
    {
        match self {
            Action::Notify => Ok(Action::Notify),
            Action::SetTweak { value } => match value.for_rule() {
                Ok(value) => Ok(Action::SetTweak { value }),
                Err(inner) => {
                    let text: String = concat2("Failed to convert tweak: ", inner.as_str());
                    assert(tweak_for_rule(value, Err::<Tweak, String>(inner)));
                    Err(text)
                },
            },
        }
    }

    /// A copy of the action.
    pub(crate) fn copy(&self) -> (r: Action)
        ensures
            r == *self,
    {
        match self {
            Action::Notify => Action::Notify,
            Action::SetTweak { value: Tweak::Sound { value } } => Action::SetTweak {
                value: Tweak::Sound { value: value.clone() },
            },
            Action::SetTweak { value: Tweak::Highlight { value } } => Action::SetTweak {
                value: Tweak::Highlight { value: *value },
            },
            Action::SetTweak { value: Tweak::Custom { name, value } } => Action::SetTweak {
                value: Tweak::Custom { name: name.clone(), value: value.clone() },
            },
        }
    }
}

/// The actions that can be handed on, in their order.
pub open spec fn known_actions(actions: Seq<SdkAction>) -> Seq<Action> {
    actions.filter(|action: SdkAction| is_known_action(action)).map_values(
        |action: SdkAction| known_action(action),
    )
}

/// What the actions of the SDK become; those that are not known are left out.
pub fn actions_from_sdk(actions: &Vec<SdkAction>) -> (r: Vec<Action>)
    ensures
        r@ == known_actions(actions@),
{
    let ghost keep = |action: SdkAction| is_known_action(action);
    let ghost f = |action: SdkAction| known_action(action);
    let mut out: Vec<Action> = Vec::new();
    let mut i: usize = 0;
    proof {
        reveal(Seq::filter);
        assert(actions@.take(0).filter(keep).map_values(f) =~= Seq::empty());
    }
    while i < actions.len()
        invariant
            i <= actions.len(),
            keep == (|action: SdkAction| is_known_action(action)),
            f == (|action: SdkAction| known_action(action)),
            out@ == actions@.take(i as int).filter(keep).map_values(f),
        decreases actions.len() - i,
    {
        let ghost before = actions@.take(i as int).filter(keep);
        proof {
            reveal(Seq::filter);
            assert(actions@.take(i as int + 1).drop_last() =~= actions@.take(i as int));
            assert(actions@.take(i as int + 1).last() == actions@[i as int]);
        }
        if let Ok(action) = Action::try_from(&actions[i]) {
            out.push(action);
            proof {
                assert(out@ =~= before.push(actions@[i as int]).map_values(f));
            }
        }
        i = i + 1;
    }
    proof {
        assert(actions@.take(i as int) =~= actions@);
    }
    out
}

/// Whether an action plays a sound.
pub open spec fn plays_sound(action: SdkAction) -> bool {
    action matches SdkAction::SetTweak { value } && value is Sound
}

/// Whether an action highlights the message.
pub open spec fn highlights(action: SdkAction) -> bool {
    action matches SdkAction::SetTweak { value } && value == SdkTweak::Highlight { value: true }
}

/// Whether one of the actions plays a sound.
pub fn any_sound(actions: &Vec<SdkAction>) -> (r: bool)
    ensures
        r == exists|i: int| 0 <= i < actions@.len() && plays_sound(#[trigger] actions@[i]),
{
    let mut i: usize = 0;
    while i < actions.len()
        invariant
            i <= actions.len(),
            forall|j: int| 0 <= j < i ==> !plays_sound(#[trigger] actions@[j]),
        decreases actions.len() - i,
    {
        if let SdkAction::SetTweak { value: SdkTweak::Sound { .. } } = &actions[i] {
            assert(plays_sound(actions@[i as int]));
            return true;
        }
        i = i + 1;
    }
    false
}

/// Whether one of the actions highlights the message.
pub fn any_highlight(actions: &Vec<SdkAction>) -> (r: bool)
    ensures
        r == exists|i: int| 0 <= i < actions@.len() && highlights(#[trigger] actions@[i]),
{
    let mut i: usize = 0;
    while i < actions.len()
        invariant
            i <= actions.len(),
            forall|j: int| 0 <= j < i ==> !highlights(#[trigger] actions@[j]),
        decreases actions.len() - i,
    {
        if let SdkAction::SetTweak { value: SdkTweak::Highlight { value } } = &actions[i] {
            if *value {
                assert(highlights(actions@[i as int]));
                return true;
            }
        }
        i = i + 1;
    }
    false
}

/// Which notifications a user gets from a room.
#[derive(Clone, Copy, Debug, PartialEq, Eq, Structural)]
pub enum RoomNotificationMode {
    /// For all messages.
    AllMessages,
    /// For mentions and keywords only.
    MentionsAndKeywordsOnly,
    /// None.
    Mute,
}

/// Told of changes of the push rules.
pub trait NotificationSettingsDelegate {
    fn settings_did_change(&self);
}

/// The settings of a room.
#[derive(Clone, Copy)]
pub struct RoomNotificationSettings {
    /// Which notifications the user gets.
    pub mode: RoomNotificationMode,
    /// Whether that is the default.
    pub is_default: bool,
}

impl RoomNotificationSettings {
    /// The settings of a room: what the user chose for it, or else the default.
    pub fn new(
        user_defined: Option<RoomNotificationMode>,
        default_mode: RoomNotificationMode,
    ) -> (r: RoomNotificationSettings)
        ensures
            r.mode == (match user_defined {
                Some(mode) => mode,
                None => default_mode,
            }),
            r.is_default == (user_defined is None),
    {
        match user_defined {
            Some(mode) => RoomNotificationSettings { mode, is_default: false },
            None => RoomNotificationSettings { mode: default_mode, is_default: true },
        }
    }
}

/// Checks that a room is named by its ID; any other name is handed back with the
/// error.
pub fn check_settings_room(room_id: String) -> (r: Result<String, NotificationSettingsError>)
    ensures
        match room_id_refusal(room_id@) {
            None => r == Ok::<String, NotificationSettingsError>(room_id),
            Some(_) => r == Err::<String, NotificationSettingsError>(
                NotificationSettingsError::InvalidRoomId { room_id },
            ),
        },
{
    match parse_room_id(room_id.as_str()) {
        Ok(()) => Ok(room_id),
        Err(_) => Err(NotificationSettingsError::InvalidRoomId { room_id }),
    }
}

/// The rule for encrypted events.
pub const ENCRYPTED_EVENT_RULE: &'static str = ".m.rule.encrypted_event";

/// The rule for encrypted events, before it was stable.
pub const UNSTABLE_ENCRYPTED_EVENT_RULE: &'static str = ".org.matrix.msc4028.encrypted_event";

/// Whether encrypted events are pushed to the device: the stable rule decides where
/// it exists, or else the unstable one. Each argument says whether the rule is
/// enabled, or nothing if there is none.
pub fn can_push_encrypted_event_to_device(stable: Option<bool>, unstable: Option<bool>) -> (r: bool)
    ensures
        r == (match stable {
            Some(enabled) => enabled,
            None => unstable == Some(true),
        }),
{
    match stable {
        Some(enabled) => enabled,
        None => match unstable {
            Some(enabled) => enabled,
            None => false,
        },
    }
}

/// A push rule to be made.
pub struct CustomPushRule {
    pub rule_id: String,
    pub rule_kind: RuleKind,
    pub actions: Vec<Action>,
    pub conditions: Vec<PushCondition>,
}

/// The push rule that the arguments stand for.
pub open spec fn push_rule_of(
    rule_id: String,
    rule_kind: RuleKind,
    actions: Seq<Action>,
    conditions: Seq<PushCondition>,
    r: CustomPushRule,
) -> bool {
    &&& r.rule_id == rule_id
    &&& r.rule_kind == rule_kind
    &&& r.actions@.len() == actions.len()
    &&& forall|i: int|
        0 <= i < actions.len() ==> action_for_rule(
            #[trigger] actions[i],
            Ok::<Action, String>(r.actions@[i]),
        )
    &&& r.conditions@ == conditions.map_values(|c: PushCondition| safe_condition(c))
}

/// What is said of the first action that a push rule cannot be made with.
pub open spec fn refused_action(actions: Seq<Action>, text: String) -> bool {
    exists|i: int|
        {
            &&& 0 <= i < actions.len()
            &&& action_for_rule(#[trigger] actions[i], Err::<Action, String>(text))
            &&& forall|j: int| 0 <= j < i ==> is_rule_action(#[trigger] actions[j])
        }
}

/// The push rule to be made with these actions and conditions. The first action
/// that no rule can be made with is the error.
pub fn set_custom_push_rule(
    rule_id: String,
    rule_kind: RuleKind,
    actions: Vec<Action>,
    conditions: Vec<PushCondition>,
) -> (r: Result<CustomPushRule, NotificationSettingsError>)
    ensures
        match r {
            Ok(rule) => push_rule_of(rule_id, rule_kind, actions@, conditions@, rule),
            Err(error) => {
                &&& error matches NotificationSettingsError::Generic { msg }
                &&& refused_action(actions@, msg)
            },
        },
{
    let mut made: Vec<Action> = Vec::new();
    let mut i: usize = 0;
    while i < actions.len()
        invariant
            i <= actions.len(),
            made@.len() == i,
            forall|j: int|
                0 <= j < i ==> action_for_rule(
                    #[trigger] actions@[j],
                    Ok::<Action, String>(made@[j]),
                ),
            forall|j: int| 0 <= j < i ==> is_rule_action(#[trigger] actions@[j]),
        decreases actions.len() - i,
    {
        match actions[i].copy().for_rule() {
            Ok(action) => made.push(action),
            Err(msg) => {
                assert(action_for_rule(actions@[i as int], Err::<Action, String>(msg)));
                return Err(NotificationSettingsError::Generic { msg });
            },
        }
        i = i + 1;
    }
    let ghost f = |c: PushCondition| safe_condition(c);
    let mut safe: Vec<PushCondition> = Vec::new();
    let mut k: usize = 0;
    while k < conditions.len()
        invariant
            k <= conditions.len(),
            f == (|c: PushCondition| safe_condition(c)),
            safe@ == conditions@.take(k as int).map_values(f),
        decreases conditions.len() - k,
    {
        safe.push(conditions[k].to_safe());
        proof {
            assert(safe@ =~= conditions@.take(k as int + 1).map_values(f));
        }
        k = k + 1;
    }
    proof {
        assert(conditions@.take(k as int) =~= conditions@);
    }
    Ok(CustomPushRule { rule_id, rule_kind, actions: made, conditions: safe })
}

/// Numbers that a homeserver can be sent are kept in conditions, and others are zero; nothing
/// else of a condition changes.
pub proof fn conditions_are_sent_as_given(
    condition: PushCondition,
    safe: PushCondition,
    value: JsonValue,
    safe_value: JsonValue,
)
    requires
        call_ensures(PushCondition::to_safe, (&condition,), safe),
        call_ensures(JsonValue::to_safe, (&value,), safe_value),
    ensures
        condition is EventMatch || condition is ContainsDisplayName
            || condition is SenderNotificationPermission ==> safe == condition,
        condition matches PushCondition::RoomMemberCount { prefix, count } ==> safe
            == (PushCondition::RoomMemberCount {
            prefix,
            count: if count <= 9_007_199_254_740_991 {
                count
            } else {
                0
            },
        }),
        condition matches PushCondition::EventPropertyIs { key, value } ==> safe is EventPropertyIs
            && safe->EventPropertyIs_key == key && (!(value is Integer)
            ==> safe->EventPropertyIs_value == value),
        condition matches PushCondition::EventPropertyContains { key, value } ==>
            safe is EventPropertyContains && safe->EventPropertyContains_key == key && (!(
        value is Integer) ==> safe->EventPropertyContains_value == value),
        !(value is Integer) ==> safe_value == value,
        value matches JsonValue::Integer { value } ==> safe_value == (JsonValue::Integer {
            value: if -9_007_199_254_740_991 <= value <= 9_007_199_254_740_991 {
                value
            } else {
                0
            },
        }),
{
}

/// What the SDK knows is handed on as it is, and what it does not know is refused.
pub proof fn known_rules_are_handed_on(
    condition: PushCondition,
    known: Result<PushCondition, String>,
    unknown: Result<PushCondition, String>,
    notify: Result<Action, String>,
    sound: String,
    loud: Result<Action, String>,
    highlight: bool,
    lit: Result<Action, String>,
    odd: Result<Action, String>,
)
    requires
        call_ensures(PushCondition::try_from, (SdkPushCondition::Known { condition },), known),
        call_ensures(PushCondition::try_from, (SdkPushCondition::Unknown,), unknown),
        call_ensures(Action::try_from, (&SdkAction::Notify,), notify),
        call_ensures(
            Action::try_from,
            (&SdkAction::SetTweak { value: SdkTweak::Sound { value: sound } },),
            loud,
        ),
        call_ensures(
            Action::try_from,
            (&SdkAction::SetTweak { value: SdkTweak::Highlight { value: highlight } },),
            lit,
        ),
        call_ensures(Action::try_from, (&SdkAction::Unknown,), odd),
    ensures
        known == Ok::<PushCondition, String>(condition) && unknown is Err,
        notify == Ok::<Action, String>(Action::Notify) && odd is Err,
        loud == Ok::<Action, String>(Action::SetTweak { value: Tweak::Sound { value: sound } }),
        lit == Ok::<Action, String>(
            Action::SetTweak { value: Tweak::Highlight { value: highlight } },
        ),
{
}

/// The kinds of rules are found again by their names.
pub proof fn rule_kinds_are_found_by_their_names(kind: RuleKind, name: &str, again: RuleKind)
    requires
        call_ensures(RuleKind::as_str, (&kind,), name),
        call_ensures(RuleKind::from, (name,), again),
    ensures
        kind is Override ==> again is Override && name@ == "override"@,
        kind is Underride ==> again is Underride && name@ == "underride"@,
        kind is Sender ==> again is Sender && name@ == "sender"@,
        kind is Room ==> again is Room && name@ == "room"@,
        kind is Content ==> again is Content && name@ == "content"@,
        kind is Custom && !(again is Custom) ==> name@ == kind->value@,
        kind is Custom && again is Custom ==> again->value@ == kind->value@,
{
    reveal_strlit("override");
    reveal_strlit("underride");
    reveal_strlit("sender");
    reveal_strlit("room");
    reveal_strlit("content");
    assert("override"@.len() == 8 && "underride"@.len() == 9 && "sender"@.len() == 6);
    assert("room"@.len() == 4 && "content"@.len() == 7);
}

/// Encrypted events are pushed as the stable rule says, and as the other one says only where
/// there is no stable one.
pub proof fn the_stable_rule_counts(
    stable: Option<bool>,
    unstable: Option<bool>,
    r: bool,
)
    requires
        call_ensures(can_push_encrypted_event_to_device, (stable, unstable), r),
    ensures
        stable is Some ==> r == stable->0,
        stable is None && unstable is Some ==> r == unstable->0,
        stable is None && unstable is None ==> !r,
{
}

/// A rule is set under the ID and the kind that were given, with as many actions and conditions;
/// it is refused only for an action with a value that is not JSON.
pub proof fn push_rules_are_set_as_given(
    rule_id: String,
    rule_kind: RuleKind,
    actions: Vec<Action>,
    conditions: Vec<PushCondition>,
    r: Result<CustomPushRule, NotificationSettingsError>,
    i: int,
)
    requires
        call_ensures(set_custom_push_rule, (rule_id, rule_kind, actions, conditions), r),
    ensures
        r matches Ok(rule) ==> {
            &&& rule.rule_id == rule_id && rule.rule_kind == rule_kind
            &&& rule.actions@.len() == actions@.len()
            &&& rule.conditions@.len() == conditions@.len()
            &&& 0 <= i < actions@.len() ==> {
                &&& actions@[i] is Notify <==> rule.actions@[i] is Notify
                &&& actions@[i] matches Action::SetTweak { value } ==> (!(value is Custom)
                    ==> rule.actions@[i] == actions@[i])
            }
            &&& 0 <= i < conditions@.len() && !(conditions@[i] is RoomMemberCount
                || conditions@[i] is EventPropertyIs || conditions@[i] is EventPropertyContains)
                ==> rule.conditions@[i] == conditions@[i]
        },
{
    if r is Ok && 0 <= i < actions@.len() {
        assert(action_for_rule(actions@[i], Ok::<Action, String>(r->Ok_0.actions@[i])));
    }
}

/// Settings are those of the room that was named, if it was by its ID.
pub proof fn settings_are_of_the_room(
    room_id: String,
    r: Result<String, NotificationSettingsError>,
)
    requires
        call_ensures(check_settings_room, (room_id,), r),
    ensures
        r is Ok <==> room_id_refusal(room_id@) is None,
        r matches Ok(id) ==> id == room_id,
        r matches Err(error) ==> error == (NotificationSettingsError::InvalidRoomId { room_id }),
{
}

/// What the user chose for a room counts, or else the default, which is told as such.
pub proof fn settings_are_chosen_or_default(
    chosen: Option<RoomNotificationMode>,
    default: RoomNotificationMode,
    r: RoomNotificationSettings,
)
    requires
        call_ensures(RoomNotificationSettings::new, (chosen, default), r),
    ensures
        chosen is Some ==> r.mode == chosen->0 && !r.is_default,
        chosen is None ==> r.mode == default && r.is_default,
{
}

/// Every action that is known is handed on, in its place, and no other is.
pub proof fn known_actions_are_handed_on(actions: Seq<SdkAction>, action: SdkAction)
    ensures
        known_actions(Seq::<SdkAction>::empty()).len() == 0,
        action is Notify ==> known_actions(actions.push(action)) == known_actions(actions).push(
            Action::Notify,
        ),
        action is Unknown ==> known_actions(actions.push(action)) == known_actions(actions),
        action matches SdkAction::SetTweak { value: SdkTweak::Sound { value } } ==> known_actions(
            actions.push(action),
        ) == known_actions(actions).push(Action::SetTweak { value: Tweak::Sound { value } }),
        action matches SdkAction::SetTweak { value: SdkTweak::Highlight { value } }
            ==> known_actions(actions.push(action)) == known_actions(actions).push(
            Action::SetTweak { value: Tweak::Highlight { value } },
        ),
{
    reveal(Seq::filter);
    assert(actions.push(action).drop_last() =~= actions);
    let f = |action: SdkAction| known_action(action);
    if is_known_action(action) {
        assert(known_actions(actions.push(action)) =~= known_actions(actions).push(f(action)));
    }
}

/// Tweaks are handed on, and set, as what they are; a custom one needs a value in JSON.
pub proof fn tweaks_are_what_they_are(
    sound: String,
    highlight: bool,
    name: String,
    value: String,
    r: (Result<Tweak, String>, Result<Tweak, String>, Result<Tweak, String>, Result<Tweak, String>),
    set: (Result<Tweak, String>, Result<Tweak, String>, Result<Tweak, String>),
)
    requires
        call_ensures(Tweak::try_from, (&SdkTweak::Sound { value: sound },), r.0),
        call_ensures(Tweak::try_from, (&SdkTweak::Highlight { value: highlight },), r.1),
        call_ensures(
            Tweak::try_from,
            (&SdkTweak::Custom { name, value: Ok::<String, String>(value) },),
            r.2,
        ),
        call_ensures(Tweak::try_from, (&SdkTweak::Unknown,), r.3),
        call_ensures(Tweak::for_rule, (Tweak::Sound { value: sound },), set.0),
        call_ensures(Tweak::for_rule, (Tweak::Highlight { value: highlight },), set.1),
        call_ensures(Tweak::for_rule, (Tweak::Custom { name, value },), set.2),
    ensures
        r.0 == Ok::<Tweak, String>(Tweak::Sound { value: sound }) && set.0 == r.0,
        r.1 == Ok::<Tweak, String>(Tweak::Highlight { value: highlight }) && set.1 == r.1,
        r.2 == Ok::<Tweak, String>(Tweak::Custom { name, value }),
        r.3 is Err,
        set.2 is Ok <==> json_reading(value@) is Ok,
        set.2 matches Ok(tweak) ==> tweak matches Tweak::Custom { name: n, value: v } && n == name
            && v@ == json_reading(value@)->Ok_0,
{
}

/// One more action is handed on after all the others, if it is known; and any action that plays a
/// sound, or highlights, counts.
pub proof fn actions_are_handed_on_in_order(
    actions: Vec<SdkAction>,
    more: Vec<SdkAction>,
    action: SdkAction,
    before: Vec<Action>,
    after: Vec<Action>,
    sound: (bool, bool),
    highlight: (bool, bool),
)
    requires
        more@ == actions@.push(action),
        call_ensures(actions_from_sdk, (&actions,), before),
        call_ensures(actions_from_sdk, (&more,), after),
        call_ensures(any_sound, (&actions,), sound.0),
        call_ensures(any_sound, (&more,), sound.1),
        call_ensures(any_highlight, (&actions,), highlight.0),
        call_ensures(any_highlight, (&more,), highlight.1),
    ensures
        action is Notify ==> after@ == before@.push(Action::Notify),
        action is Unknown ==> after@ == before@,
        action matches SdkAction::SetTweak { value: SdkTweak::Sound { value } } ==> after@
            == before@.push(Action::SetTweak { value: Tweak::Sound { value } }),
        action matches SdkAction::SetTweak { value: SdkTweak::Highlight { value } } ==> after@
            == before@.push(Action::SetTweak { value: Tweak::Highlight { value } }),
        action matches SdkAction::SetTweak { value: SdkTweak::Sound { value } } ==> sound.1,
        action is Notify || action is Unknown ==> sound.1 == sound.0 && highlight.1 == highlight.0,
        action matches SdkAction::SetTweak { value: SdkTweak::Highlight { value } } ==> (value
            ==> highlight.1) && (!value ==> highlight.1 == highlight.0) && sound.1 == sound.0,
        actions@.len() == 0 ==> !sound.0 && !highlight.0 && before@.len() == 0,
{
    known_actions_are_handed_on(actions@, action);
    let n = actions@.len() as int;
    assert(more@[n] == action);
    assert forall|i: int| 0 <= i < n implies more@[i] == actions@[i] by {}
    if sound.0 {
        let i = choose|i: int| 0 <= i < n && plays_sound(#[trigger] actions@[i]);
        assert(plays_sound(more@[i]));
    }
    if sound.1 {
        let i = choose|i: int| 0 <= i < more@.len() && plays_sound(#[trigger] more@[i]);
        if i < n {
            assert(plays_sound(actions@[i]));
        }
    }
    if highlight.0 {
        let i = choose|i: int| 0 <= i < n && highlights(#[trigger] actions@[i]);
        assert(highlights(more@[i]));
    }
    if highlight.1 {
        let i = choose|i: int| 0 <= i < more@.len() && highlights(#[trigger] more@[i]);
        if i < n {
            assert(highlights(actions@[i]));
        }
    }
    if plays_sound(action) {
        assert(plays_sound(more@[n]));
    }
    if highlights(action) {
        assert(highlights(more@[n]));
    }
    assert(Seq::<SdkAction>::empty() =~= actions@ || n > 0);
}

} // verus!
