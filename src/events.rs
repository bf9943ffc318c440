//! The event model read by the authorization rules.
//!
//! The content of an event is held as the outcome of reading each field that
//! the rules consult: absent, present but malformed, or a parsed value.
use vstd::prelude::*;
use crate::ids::{EventId, RoomId, UserId};
use crate::text::str_eq;

verus! {

/// The type of an event.
#[derive(Debug)]
pub enum EventType {
    RoomAliases,
    RoomCreate,
    RoomJoinRules,
    RoomMember,
    RoomPowerLevels,
    RoomRedaction,
    RoomThirdPartyInvite,
    /// Any other type, by its name.
    Custom(String),
}

/// Two event types are the same type (custom types by name).
pub open spec fn type_eq(a: EventType, b: EventType) -> bool {
    match (a, b) {
        (EventType::RoomAliases, EventType::RoomAliases) => true,
        (EventType::RoomCreate, EventType::RoomCreate) => true,
        (EventType::RoomJoinRules, EventType::RoomJoinRules) => true,
        (EventType::RoomMember, EventType::RoomMember) => true,
        (EventType::RoomPowerLevels, EventType::RoomPowerLevels) => true,
        (EventType::RoomRedaction, EventType::RoomRedaction) => true,
        (EventType::RoomThirdPartyInvite, EventType::RoomThirdPartyInvite) => true,
        (EventType::Custom(x), EventType::Custom(y)) => x@ == y@,
        _ => false,
    }
}

impl EventType {
    /// Whether `self` and `other` are the same type.
    pub fn same_as(&self, other: &EventType) -> (r: bool)
        ensures
            r == type_eq(*self, *other),
    {
        match (self, other) {
            (EventType::RoomAliases, EventType::RoomAliases) => true,
            (EventType::RoomCreate, EventType::RoomCreate) => true,
            (EventType::RoomJoinRules, EventType::RoomJoinRules) => true,
            (EventType::RoomMember, EventType::RoomMember) => true,
            (EventType::RoomPowerLevels, EventType::RoomPowerLevels) => true,
            (EventType::RoomRedaction, EventType::RoomRedaction) => true,
            (EventType::RoomThirdPartyInvite, EventType::RoomThirdPartyInvite) => true,
            (EventType::Custom(x), EventType::Custom(y)) => *x == *y,
            _ => false,
        }
    }

    /// The event type named `name`.
    pub fn from_name(name: &str) -> (r: EventType)
        ensures
            r is RoomAliases <==> name@ == "m.room.aliases"@,
            r is RoomCreate <==> name@ == "m.room.create"@,
            r is RoomJoinRules <==> name@ == "m.room.join_rules"@,
            r is RoomMember <==> name@ == "m.room.member"@,
            r is RoomPowerLevels <==> name@ == "m.room.power_levels"@,
            r is RoomRedaction <==> name@ == "m.room.redaction"@,
            r is RoomThirdPartyInvite <==> name@ == "m.room.third_party_invite"@,
            r is Custom ==> r->Custom_0@ == name@,
    {
        proof {
            reveal_strlit("m.room.aliases");
            reveal_strlit("m.room.create");
            reveal_strlit("m.room.join_rules");
            reveal_strlit("m.room.member");
            reveal_strlit("m.room.power_levels");
            reveal_strlit("m.room.redaction");
            reveal_strlit("m.room.third_party_invite");
            assert("m.room.aliases"@.len() == 14);
            assert("m.room.create"@.len() == 13);
            assert("m.room.join_rules"@.len() == 17);
            assert("m.room.member"@.len() == 13);
            assert("m.room.power_levels"@.len() == 19);
            assert("m.room.redaction"@.len() == 16);
            assert("m.room.third_party_invite"@.len() == 25);
            assert("m.room.create"@[7] != "m.room.member"@[7]);
        }
        if str_eq(name, "m.room.aliases") {
            EventType::RoomAliases
        } else if str_eq(name, "m.room.create") {
            EventType::RoomCreate
        } else if str_eq(name, "m.room.join_rules") {
            EventType::RoomJoinRules
        } else if str_eq(name, "m.room.member") {
            EventType::RoomMember
        } else if str_eq(name, "m.room.power_levels") {
            EventType::RoomPowerLevels
        } else if str_eq(name, "m.room.redaction") {
            EventType::RoomRedaction
        } else if str_eq(name, "m.room.third_party_invite") {
            EventType::RoomThirdPartyInvite
        } else {
            EventType::Custom(name.to_owned())
        }
    }
}

/// What reading one field of a JSON object gave.
#[derive(Debug)]
pub enum Field<T> {
    /// The key is not there.
    Absent,
    /// The key is there but its value does not parse.
    Invalid,
    /// The key is there and its value parsed.
    Valid(T),
}

/// The membership of a user in a room.
#[derive(Debug, Clone, Copy, PartialEq, Eq, Structural)]
pub enum MembershipState {
    Join,
    Leave,
    Invite,
    Ban,
    Knock,
}

/// How users may join a room.
#[derive(Debug, Clone, Copy, PartialEq, Eq, Structural)]
pub enum JoinRule {
    Invite,
    Public,
    Knock,
    Restricted,
    Private,
    /// A rule that the engine does not know.
    Custom,
}

/// The signed part of a third-party invite.
#[derive(Debug)]
pub struct SignedContent {
    pub mxid: String,
    pub token: String,
}

/// The `third_party_invite` object of an invite's content.
#[derive(Debug)]
pub struct ThirdPartyInvite {
    pub display_name: String,
    pub signed: SignedContent,
}

/// The keys of an `m.room.third_party_invite` event.
#[derive(Debug)]
pub struct ThirdPartyInviteKeys {
    pub public_key: String,
    pub public_keys: Vec<String>,
}

/// The content of an `m.room.power_levels` event, with every default filled in.
#[derive(Debug)]
pub struct PowerLevels {
    pub users: Vec<(String, i64)>,
    pub users_default: i64,
    pub events: Vec<(EventType, i64)>,
    pub events_default: i64,
    pub state_default: i64,
    pub ban: i64,
    pub kick: i64,
    pub redact: i64,
    pub invite: i64,
    pub notifications_room: i64,
}

/// The content of an event as the rules read it.
#[derive(Debug)]
pub struct Content {
    /// `membership`.
    pub membership: Field<MembershipState>,
    /// `third_party_invite`.
    pub third_party_invite: Field<ThirdPartyInvite>,
    /// `join_rule`.
    pub join_rule: Field<JoinRule>,
    /// The whole content read as power levels; `None` where it does not parse.
    pub power_levels: Option<PowerLevels>,
    /// `redact`, read on its own.
    pub redact: Field<i64>,
    /// `creator`.
    pub creator: Field<String>,
    /// `room_version`.
    pub room_version: Field<String>,
    /// `m.federate`.
    pub federate: Field<bool>,
    /// The whole content read as third-party-invite keys; `None` where it does not parse.
    pub invite_keys: Option<ThirdPartyInviteKeys>,
}

impl Content {
    /// A content in which no field is present and nothing parses as a record.
    pub fn empty() -> (r: Content)
        ensures
            r.membership is Absent,
            r.third_party_invite is Absent,
            r.join_rule is Absent,
            r.power_levels is None,
            r.redact is Absent,
            r.creator is Absent,
            r.room_version is Absent,
            r.federate is Absent,
            r.invite_keys is None,
    {
        Content {
            membership: Field::Absent,
            third_party_invite: Field::Absent,
            join_rule: Field::Absent,
            power_levels: None,
            redact: Field::Absent,
            creator: Field::Absent,
            room_version: Field::Absent,
            federate: Field::Absent,
            invite_keys: None,
        }
    }
}

/// A persistent data unit: one room event.
#[derive(Debug)]
pub struct Pdu {
    pub event_id: EventId,
    pub room_id: RoomId,
    pub sender: UserId,
    pub event_type: EventType,
    pub state_key: Option<String>,
    pub content: Content,
    pub prev_events: Vec<EventId>,
    pub redacts: Option<EventId>,
}

/// A reference to an event, seen as the event.
pub open spec fn deref_pdu(o: Option<&Pdu>) -> Option<Pdu> {
    match o {
        Some(p) => Some(*p),
        None => None,
    }
}

} // verus!
