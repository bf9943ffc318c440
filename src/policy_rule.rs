//! Content of `m.policy.rule.room` events: rules applied to room entities.
use vstd::prelude::*;

verus! {

/// What a policy rule recommends doing with matching entities.
#[derive(Debug)]
pub enum Recommendation {
    /// `m.ban`: ban the entities.
    Ban,
    /// A recommendation that the library does not know, by its name.
    Custom(String),
}

/// The content shared by all policy rule events.
#[derive(Debug)]
pub struct PolicyRuleEventContent {
    /// The entity affected, which may hold `*` and `?` globs.
    pub entity: String,
    /// The human-readable reason of the rule.
    pub reason: String,
    /// What to do with matching entities.
    pub recommendation: Recommendation,
}

/// The possibly redacted form of [`PolicyRuleEventContent`]: redaction removes
/// every field.
#[derive(Debug)]
pub struct PossiblyRedactedPolicyRuleEventContent {
    pub entity: Option<String>,
    pub reason: Option<String>,
    pub recommendation: Option<Recommendation>,
}

/// The content of an `m.policy.rule.room` event.
#[derive(Debug)]
pub struct PolicyRuleRoomEventContent(pub PolicyRuleEventContent);

/// The possibly redacted form of [`PolicyRuleRoomEventContent`], used where it
/// is not known whether the content was redacted.
#[derive(Debug)]
pub struct PossiblyRedactedPolicyRuleRoomEventContent(pub PossiblyRedactedPolicyRuleEventContent);

/// The type name of room policy rule events.
pub open spec fn policy_rule_room_type() -> Seq<char> {
    seq!['m', '.', 'p', 'o', 'l', 'i', 'c', 'y', '.', 'r', 'u', 'l', 'e', '.', 'r', 'o', 'o', 'm']
}

fn policy_rule_room_type_name() -> (r: String)
    ensures
        r@ == policy_rule_room_type(),
{
    let r = "m.policy.rule.room".to_owned();
    proof {
        reveal_strlit("m.policy.rule.room");
    }
    assert(r@ =~= policy_rule_room_type());
    r
}

impl PolicyRuleRoomEventContent {
    /// The event type of this content.
    pub fn event_type(&self) -> (r: String)
        ensures
            r@ == policy_rule_room_type(),
    {
        policy_rule_room_type_name()
    }
}

impl PossiblyRedactedPolicyRuleRoomEventContent {
    /// The event type of this content.
    pub fn event_type(&self) -> (r: String)
        ensures
            r@ == policy_rule_room_type(),
    {
        policy_rule_room_type_name()
    }

    /// Builds the content of an event of type `event_type` from its parsed
    /// fields; an event of any other type is refused with a message naming it.
    pub fn from_parts(event_type: &str, content: PossiblyRedactedPolicyRuleEventContent) -> (r:
        Result<Self, String>)
        ensures
            r is Ok == (event_type@ == policy_rule_room_type()),
            r matches Ok(c) ==> c.0 == content,
    {
        let expected = policy_rule_room_type_name();
        if crate::text::str_eq(event_type, expected.as_str()) {
            Ok(PossiblyRedactedPolicyRuleRoomEventContent(content))
        } else {
            let mut msg = "expected event type `m.policy.rule.room`, found `".to_owned();
            msg.append(event_type);
            msg.append("`");
            Err(msg)
        }
    }
}

} // verus!
